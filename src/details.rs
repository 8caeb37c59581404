use vstd::prelude::*;

verus! {

/// Metadata that the compositor has reported for one toplevel window.
/// Each field keeps its last reported value until a new one arrives.
#[derive(Debug, PartialEq, Eq)]
pub struct ToplevelDetails {
    pub title: Option<String>,
    pub app_id: Option<String>,
    /// State flags as the protocol's small integer tags.
    pub state: Vec<u8>,
    /// Reported parent window; not tracked.
    pub parent: Option<usize>,
}

/// The mathematical value of a `ToplevelDetails`.
pub struct DetailsView {
    pub title: Option<Seq<char>>,
    pub app_id: Option<Seq<char>>,
    pub state: Seq<u8>,
    pub parent: Option<usize>,
}

pub open spec fn opt_str_view(s: Option<String>) -> Option<Seq<char>> {
    match s {
        Some(t) => Some(t@),
        None => None,
    }
}

/// Details of a window that has been announced and has reported nothing yet.
pub open spec fn empty_details() -> DetailsView {
    DetailsView { title: None, app_id: None, state: Seq::empty(), parent: None }
}

impl View for ToplevelDetails {
    type V = DetailsView;

    open spec fn view(&self) -> DetailsView {
        DetailsView {
            title: opt_str_view(self.title),
            app_id: opt_str_view(self.app_id),
            state: self.state@,
            parent: self.parent,
        }
    }
}

fn copy_opt_string(s: &Option<String>) -> (r: Option<String>)
    ensures
        opt_str_view(r) == opt_str_view(*s),
{
    match s {
        Some(t) => Some(t.clone()),
        None => None,
    }
}

fn copy_flags(v: &Vec<u8>) -> (r: Vec<u8>)
    ensures
        r@ == v@,
{
    let mut r: Vec<u8> = Vec::with_capacity(v.len());
    let mut i: usize = 0;
    while i < v.len()
        invariant
            i <= v@.len(),
            r@ == v@.subrange(0, i as int),
        decreases v@.len() - i,
    {
        r.push(v[i]);
        i = i + 1;
    }
    assert(r@ =~= v@);
    r
}

impl ToplevelDetails {
    /// Details with every field unset.
    pub fn new() -> (r: Self)
        ensures
            r@ == empty_details(),
    {
        let r = ToplevelDetails { title: None, app_id: None, state: Vec::new(), parent: None };
        assert(r@.state =~= Seq::<u8>::empty());
        r
    }

    /// An independent copy with the same value.
    pub fn snapshot(&self) -> (r: Self)
        ensures
            r@ == self@,
    {
        ToplevelDetails {
            title: copy_opt_string(&self.title),
            app_id: copy_opt_string(&self.app_id),
            state: copy_flags(&self.state),
            parent: self.parent,
        }
    }
}

} // verus!
