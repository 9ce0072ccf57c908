//! The rack selector: an ordered list of plugin names and a cursor into it.
use vstd::prelude::*;

verus! {

use vstd::arithmetic::div_mod::{lemma_mod_self_0, lemma_small_mod};
use crate::names::{first_containing, hint_matches, lowercase_all, lower_of, str_lowercase};

/// The names as plain character sequences.
pub open spec fn names_view(v: Seq<String>) -> Seq<Seq<char>> {
    v.map_values(|s: String| s@)
}

/// A cursor is valid when it is absent or indexes the list.
pub open spec fn cursor_valid(len: nat, c: Option<usize>) -> bool {
    match c {
        Some(i) => i < len,
        None => true,
    }
}

/// The cursor after the list is replaced by one of length `len`.
pub open spec fn revalidated(len: nat, c: Option<usize>) -> Option<usize> {
    if len == 0 {
        None
    } else {
        match c {
            Some(i) => if i < len { Some(i) } else { Some(0) },
            None => Some(0),
        }
    }
}

/// The cursor after one step forward, wrapping from the last name to the first.
pub open spec fn next_cursor(len: nat, c: Option<usize>) -> Option<usize> {
    if len == 0 {
        c
    } else {
        match c {
            Some(i) => Some(((i + 1) % (len as int)) as usize),
            None => Some(0),
        }
    }
}

/// The cursor after one step back, wrapping from the first name to the last.
pub open spec fn prev_cursor(len: nat, c: Option<usize>) -> Option<usize> {
    if len == 0 {
        c
    } else {
        match c {
            Some(i) => if i == 0 { Some((len - 1) as usize) } else { Some((i - 1) as usize) },
            None => Some((len - 1) as usize),
        }
    }
}

/// The cursor after a sequence of steps: `true` steps forward, `false` back.
pub open spec fn run_steps(len: nat, c: Option<usize>, steps: Seq<bool>) -> Option<usize>
    decreases steps.len(),
{
    if steps.len() == 0 {
        c
    } else {
        let first = if steps[0] { next_cursor(len, c) } else { prev_cursor(len, c) };
        run_steps(len, first, steps.drop_first())
    }
}

/// On a non-empty rack, any sequence of forward and backward steps keeps the
/// cursor inside the list, and sets it once at least one step was taken.
pub proof fn lemma_steps_stay_in_range(len: nat, c: Option<usize>, steps: Seq<bool>)
    requires
        len > 0,
        cursor_valid(len, c),
    ensures
        cursor_valid(len, run_steps(len, c, steps)),
        steps.len() > 0 ==> run_steps(len, c, steps) is Some,
    decreases steps.len(),
{
    if steps.len() > 0 {
        let first = if steps[0] { next_cursor(len, c) } else { prev_cursor(len, c) };
        lemma_steps_stay_in_range(len, first, steps.drop_first());
    }
}

/// On a non-empty rack, a step forward followed by a step back, or a step
/// back followed by a step forward, returns the cursor to where it was.
pub proof fn lemma_step_round_trip(len: nat, i: usize)
    requires
        i < len,
        len <= usize::MAX,
    ensures
        prev_cursor(len, next_cursor(len, Some(i))) == Some(i),
        next_cursor(len, prev_cursor(len, Some(i))) == Some(i),
{
    let n = len as int;
    if i + 1 < n {
        lemma_small_mod((i + 1) as nat, len);
        assert(next_cursor(len, Some(i)) == Some((i + 1) as usize));
    } else {
        lemma_mod_self_0(n);
        assert(next_cursor(len, Some(i)) == Some(0usize));
    }
    if i == 0 {
        lemma_mod_self_0(n);
        assert(prev_cursor(len, Some(i)) == Some((n - 1) as usize));
    } else {
        lemma_small_mod(i as nat, len);
        assert(prev_cursor(len, Some(i)) == Some((i - 1) as usize));
    }
}

/// Replacing the list with an empty one always clears the cursor.
pub proof fn lemma_empty_list_clears_cursor(c: Option<usize>)
    ensures
        revalidated(0, c) is None,
{
}

/// Replacing the list with a non-empty one, when the cursor was unset or
/// would fall outside the new list, puts the cursor on the first name.
pub proof fn lemma_fresh_list_selects_first(len: nat, c: Option<usize>)
    requires
        len > 0,
        c is None || c.unwrap() >= len,
    ensures
        revalidated(len, c) == Some(0usize),
{
}

/// `i` is the first position of `names` that matches `hint`.
pub open spec fn is_first_match(names: Seq<Seq<char>>, hint: Seq<char>, i: int) -> bool {
    &&& 0 <= i < names.len()
    &&& hint_matches(names[i], hint)
    &&& forall|j: int| 0 <= j < i ==> !hint_matches(names[j], hint)
}

/// Some name of `names` matches `hint`.
pub open spec fn any_match(names: Seq<Seq<char>>, hint: Seq<char>) -> bool {
    exists|i: int| 0 <= i < names.len() && hint_matches(names[i], hint)
}

/// The abstract rack: its names and its cursor.
pub struct RackView {
    pub plugins: Seq<Seq<char>>,
    pub active: Option<usize>,
}

/// What a caller is shown of the rack: the names, the cursor, and the
/// name under the cursor.
pub struct VstRackInfo {
    pub plugins: Vec<String>,
    pub active_index: Option<usize>,
    pub active_name: Option<String>,
}

/// The rack's state. The cursor, when present, always indexes the list.
pub struct VstRackState {
    plugins: Vec<String>,
    active_index: Option<usize>,
}

impl View for VstRackState {
    type V = RackView;

    closed spec fn view(&self) -> RackView {
        RackView { plugins: names_view(self.plugins@), active: self.active_index }
    }
}

impl VstRackState {
    pub open spec fn wf(&self) -> bool {
        cursor_valid(self@.plugins.len(), self@.active)
    }

    /// An empty rack with no selection.
    pub fn new() -> (r: VstRackState)
        ensures
            r.wf(),
            r@.plugins == Seq::<Seq<char>>::empty(),
            r@.active is None,
    {
        let r = VstRackState { plugins: Vec::new(), active_index: None };
        assert(r@.plugins =~= Seq::<Seq<char>>::empty());
        r
    }

    /// Stores `names` as they are and revalidates the cursor: cleared for an
    /// empty list, set to the first name when it was unset or out of range,
    /// kept otherwise.
    pub fn replace_list(&mut self, names: Vec<String>)
        ensures
            final(self).wf(),
            final(self)@.plugins == names_view(names@),
            final(self)@.active == revalidated(names@.len(), old(self)@.active),
    {
        let len = names.len();
        self.plugins = names;
        if len == 0 {
            self.active_index = None;
        } else {
            match self.active_index {
                Some(i) => {
                    if i >= len {
                        self.active_index = Some(0);
                    }
                },
                None => {
                    self.active_index = Some(0);
                },
            }
        }
    }

    /// Moves the cursor one name forward, wrapping; an unset cursor lands on
    /// the first name. An empty rack is left as it is.
    pub fn next(&mut self)
        requires
            old(self).wf(),
        ensures
            final(self).wf(),
            final(self)@.plugins == old(self)@.plugins,
            final(self)@.active == next_cursor(old(self)@.plugins.len(), old(self)@.active),
    {
        let len = self.plugins.len();
        if len == 0 {
            return;
        }
        self.active_index = match self.active_index {
            Some(i) => Some((i + 1) % len),
            None => Some(0),
        };
    }

    /// Moves the cursor one name back, wrapping; an unset cursor lands on the
    /// last name. An empty rack is left as it is.
    pub fn previous(&mut self)
        requires
            old(self).wf(),
        ensures
            final(self).wf(),
            final(self)@.plugins == old(self)@.plugins,
            final(self)@.active == prev_cursor(old(self)@.plugins.len(), old(self)@.active),
    {
        let len = self.plugins.len();
        if len == 0 {
            return;
        }
        self.active_index = match self.active_index {
            Some(i) => if i == 0 { Some(len - 1) } else { Some(i - 1) },
            None => Some(len - 1),
        };
    }

    /// Puts the cursor on the first name that contains `hint`, without regard
    /// to case. When no name matches, the cursor is left as it was.
    pub fn select_by_hint(&mut self, hint: &str)
        requires
            old(self).wf(),
        ensures
            final(self).wf(),
            final(self)@.plugins == old(self)@.plugins,
            any_match(old(self)@.plugins, hint@) ==> {
                &&& final(self)@.active is Some
                &&& is_first_match(old(self)@.plugins, hint@, final(self)@.active.unwrap() as int)
            },
            !any_match(old(self)@.plugins, hint@) ==> final(self)@.active == old(self)@.active,
    {
        let hint_l = str_lowercase(hint);
        let folded = lowercase_all(&self.plugins);
        let found = first_containing(&folded, hint_l.as_str());
        let ghost names = self@.plugins;
        assert(forall|j: int|
            0 <= j < names.len() ==> hint_matches(names[j], hint@) == crate::names::contains(
                #[trigger] folded@[j]@,
                hint_l@,
            ));
        match found {
            Some(i) => {
                assert(folded@.map_values(|s: String| s@)[i as int] == folded@[i as int]@);
                assert(hint_matches(names[i as int], hint@));
                assert forall|j: int| 0 <= j < i implies !hint_matches(names[j], hint@) by {
                    assert(folded@.map_values(|s: String| s@)[j] == folded@[j]@);
                }
                self.active_index = Some(i);
            },
            None => {
                assert forall|j: int| 0 <= j < names.len() implies !hint_matches(
                    names[j],
                    hint@,
                ) by {
                    assert(!crate::names::contains(folded@[j]@, hint_l@));
                }
                assert(!any_match(names, hint@));
            },
        }
    }

    /// The rack as a caller sees it.
    pub fn snapshot(&self) -> (r: VstRackInfo)
        requires
            self.wf(),
        ensures
            names_view(r.plugins@) == self@.plugins,
            r.active_index == self@.active,
            r.active_name.is_some() == self@.active.is_some(),
            r.active_index matches Some(i) ==> r.active_name.unwrap()@ == self@.plugins[i as int],
    {
        let plugins = self.plugins.clone();
        assert(names_view(plugins@) =~= self@.plugins);
        let active_name = match self.active_index {
            Some(i) => Some(self.plugins[i].clone()),
            None => None,
        };
        VstRackInfo { plugins, active_index: self.active_index, active_name }
    }
}

} // verus!
