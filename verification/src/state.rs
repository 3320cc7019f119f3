//! The authoritative selection state owned by the root `Select` component: an
//! ordered, duplicate-free collection of selected value strings, together with
//! the spec-level description of how a reported option click or a chip removal
//! rewrites it.

use vstd::prelude::*;

verus! {

broadcast use vstd::seq_lib::group_seq_properties;

/// The selection after removing every occurrence of `v`, keeping the order of
/// the remaining entries.
pub open spec fn seq_remove(s: Seq<Seq<char>>, v: Seq<char>) -> Seq<Seq<char>>
    decreases s.len(),
{
    if s.len() == 0 {
        Seq::empty()
    } else {
        let rest = seq_remove(s.drop_last(), v);
        if s.last() == v {
            rest
        } else {
            rest.push(s.last())
        }
    }
}

/// How one reported click on the option with value `v` rewrites the selection:
/// in single-select mode the whole selection is replaced by `[v]`; in
/// multi-select mode `v` is toggled, removed if present and appended if not.
pub open spec fn update_selection(s: Seq<Seq<char>>, multiple: bool, v: Seq<char>) -> Seq<
    Seq<char>,
> {
    if !multiple {
        seq![v]
    } else if s.contains(v) {
        seq_remove(s, v)
    } else {
        s.push(v)
    }
}

/// The selection after a whole sequence of clicks, applied in order.
pub open spec fn apply_clicks(s: Seq<Seq<char>>, clicks: Seq<Seq<char>>, multiple: bool) -> Seq<
    Seq<char>,
>
    decreases clicks.len(),
{
    if clicks.len() == 0 {
        s
    } else {
        update_selection(apply_clicks(s, clicks.drop_last(), multiple), multiple, clicks.last())
    }
}

/// The single value handed down to every group for per-option highlighting:
/// the first selected value, or the empty string when nothing is selected.
pub open spec fn first_selected(s: Seq<Seq<char>>) -> Seq<char> {
    if s.len() > 0 {
        s[0]
    } else {
        Seq::empty()
    }
}

/// How `seq_remove` relates to the selection it starts from: membership,
/// order-free facts, preservation of freedom from duplicates, and the exact
/// length drop.
pub proof fn lemma_seq_remove_properties(s: Seq<Seq<char>>, v: Seq<char>)
    ensures
        forall|x: Seq<char>| #[trigger] seq_remove(s, v).contains(x) <==> s.contains(x) && x != v,
        s.no_duplicates() ==> seq_remove(s, v).no_duplicates(),
        s.no_duplicates() && s.contains(v) ==> seq_remove(s, v).len() == s.len() - 1,
        !s.contains(v) ==> seq_remove(s, v) == s,
        seq_remove(s, v).len() <= s.len(),
    decreases s.len(),
{
    if s.len() == 0 {
        assert(s =~= Seq::empty());
    } else {
        let d = s.drop_last();
        let l = s.last();
        lemma_seq_remove_properties(d, v);
        assert(s =~= d.push(l));
        assert(d.no_duplicates() <== s.no_duplicates()) by {
            if s.no_duplicates() {
                assert forall|i: int, j: int|
                    0 <= i < d.len() && 0 <= j < d.len() && i != j implies d[i] != d[j] by {
                    assert(s[i] == d[i] && s[j] == d[j]);
                }
            }
        }
        if l == v {
            if s.no_duplicates() {
                assert(!d.contains(v)) by {
                    if d.contains(v) {
                        let i = choose|i: int| 0 <= i < d.len() && d[i] == v;
                        assert(s[i] == s[s.len() - 1]);
                    }
                }
                assert(seq_remove(d, v) == d);
            }
        } else {
            let rest = seq_remove(d, v);
            assert(seq_remove(s, v) == rest.push(l));
            if s.no_duplicates() {
                assert(!d.contains(l)) by {
                    if d.contains(l) {
                        let i = choose|i: int| 0 <= i < d.len() && d[i] == l;
                        assert(s[i] == s[s.len() - 1]);
                    }
                }
                assert(rest.push(l).no_duplicates()) by {
                    assert forall|i: int, j: int|
                        0 <= i < rest.push(l).len() && 0 <= j < rest.push(l).len() && i
                            != j implies rest.push(l)[i] != rest.push(l)[j] by {
                        if i < rest.len() && j < rest.len() {
                        } else if i < rest.len() {
                            assert(rest.contains(rest[i]));
                        } else if j < rest.len() {
                            assert(rest.contains(rest[j]));
                        }
                    }
                }
            }
            if !s.contains(v) {
                assert(seq_remove(s, v) =~= s);
            }
        }
    }
}

/// Toggling a selected value off and then on again appends it at the end of
/// the selection order; its old position is not restored.
pub proof fn lemma_toggle_off_then_on(s: Seq<Seq<char>>, v: Seq<char>)
    requires
        s.contains(v),
    ensures
        update_selection(update_selection(s, true, v), true, v) == seq_remove(s, v).push(v),
{
    lemma_seq_remove_properties(s, v);
}

/// In single-select mode, any non-empty sequence of clicks leaves exactly one
/// value selected: the value of the most recent click.
pub proof fn lemma_single_select_last_click(s: Seq<Seq<char>>, clicks: Seq<Seq<char>>)
    requires
        clicks.len() > 0,
    ensures
        apply_clicks(s, clicks, false) == seq![clicks.last()],
        apply_clicks(s, clicks, false).len() == 1,
{
}

/// In multi-select mode, one click toggles exactly the clicked value: an
/// unselected value is appended, a selected value is removed, and a selection
/// free of duplicates stays free of duplicates.
pub proof fn lemma_multi_select_toggle(s: Seq<Seq<char>>, v: Seq<char>)
    requires
        s.no_duplicates(),
    ensures
        !s.contains(v) ==> update_selection(s, true, v) == s.push(v),
        !s.contains(v) ==> update_selection(s, true, v).len() == s.len() + 1,
        s.contains(v) ==> update_selection(s, true, v).len() == s.len() - 1,
        s.contains(v) ==> !update_selection(s, true, v).contains(v),
        update_selection(s, true, v).contains(v) <==> !s.contains(v),
        update_selection(s, true, v).no_duplicates(),
{
    lemma_seq_remove_properties(s, v);
    if !s.contains(v) {
        assert(s.push(v).no_duplicates()) by {
            assert forall|i: int, j: int|
                0 <= i < s.push(v).len() && 0 <= j < s.push(v).len() && i != j implies s.push(
                v,
            )[i] != s.push(v)[j] by {
                if i < s.len() && j < s.len() {
                } else if i < s.len() {
                    assert(s.contains(s[i]));
                } else if j < s.len() {
                    assert(s.contains(s[j]));
                }
            }
        }
    }
}

/// No sequence of clicks, in either mode, ever makes a value appear twice in
/// a selection that started free of duplicates.
pub proof fn lemma_clicks_preserve_no_duplicates(
    s: Seq<Seq<char>>,
    clicks: Seq<Seq<char>>,
    multiple: bool,
)
    requires
        s.no_duplicates(),
    ensures
        apply_clicks(s, clicks, multiple).no_duplicates(),
    decreases clicks.len(),
{
    if clicks.len() > 0 {
        lemma_clicks_preserve_no_duplicates(s, clicks.drop_last(), multiple);
        let mid = apply_clicks(s, clicks.drop_last(), multiple);
        if multiple {
            lemma_multi_select_toggle(mid, clicks.last());
        }
    }
}

/// Removing a value that is not selected leaves the selection unchanged.
pub proof fn lemma_remove_absent_is_noop(s: Seq<Seq<char>>, v: Seq<char>)
    requires
        !s.contains(v),
    ensures
        seq_remove(s, v) == s,
{
    lemma_seq_remove_properties(s, v);
}

/// The ordered collection of currently selected value strings, owned by the
/// root `Select` component. Order is the insertion order of selection events;
/// a value appears at most once.
pub struct SelectionState {
    values: Vec<String>,
}

impl View for SelectionState {
    type V = Seq<Seq<char>>;

    closed spec fn view(&self) -> Seq<Seq<char>> {
        self.values.deep_view()
    }
}

impl SelectionState {
    /// A value appears at most once.
    pub open spec fn inv(&self) -> bool {
        self@.no_duplicates()
    }

    /// A fresh, empty selection.
    pub fn new() -> (r: Self)
        ensures
            r@ == Seq::<Seq<char>>::empty(),
            r.inv(),
    {
        let r = SelectionState { values: Vec::new() };
        proof {
            assert(r@ =~= Seq::<Seq<char>>::empty());
        }
        r
    }

    /// How many values are selected.
    pub fn len(&self) -> (n: usize)
        ensures
            n == self@.len(),
    {
        self.values.len()
    }

    /// The selected value at position `i` of the selection order.
    pub fn get(&self, i: usize) -> (r: &String)
        requires
            i < self@.len(),
        ensures
            r@ == self@[i as int],
    {
        &self.values[i]
    }

    /// Whether `v` is currently selected.
    pub fn contains_value(&self, v: &String) -> (b: bool)
        ensures
            b == self@.contains(v@),
    {
        let n = self.values.len();
        let mut i: usize = 0;
        while i < n
            invariant
                n == self@.len(),
                i <= n,
                forall|j: int| 0 <= j < i ==> self@[j] != v@,
            decreases n - i,
        {
            if self.values[i] == *v {
                assert(self@[i as int] == v@);
                return true;
            }
            i += 1;
        }
        false
    }

    /// A full snapshot of the selection, in order; what the external
    /// change listener is handed after every commit.
    pub fn snapshot(&self) -> (r: Vec<String>)
        ensures
            r.deep_view() == self@,
    {
        let n = self.values.len();
        let mut r: Vec<String> = Vec::new();
        let mut i: usize = 0;
        while i < n
            invariant
                n == self@.len(),
                i <= n,
                r.deep_view() =~= self@.take(i as int),
            decreases n - i,
        {
            let ghost pre = r.deep_view();
            r.push(self.values[i].clone());
            proof {
                assert(r.deep_view() =~= pre.push(self@[i as int]));
                assert(pre.push(self@[i as int]) =~= self@.take((i + 1) as int));
            }
            i += 1;
        }
        proof {
            assert(self@.take(n as int) =~= self@);
        }
        r
    }

    /// The first selected value, or the empty string when nothing is
    /// selected; the per-option highlighting comparison value handed to
    /// every group.
    pub fn first_or_empty(&self) -> (r: String)
        ensures
            r@ == first_selected(self@),
    {
        if self.values.len() > 0 {
            self.values[0].clone()
        } else {
            String::new()
        }
    }

    /// Fold one reported option click into the selection: replace in
    /// single-select mode, toggle in multi-select mode.
    pub fn handle_group_change(&mut self, multiple: bool, value: String)
        ensures
            final (self)@ == update_selection(old(self)@, multiple, value@),
            old(self).inv() ==> final (self).inv(),
    {
        proof {
            lemma_seq_remove_properties(old(self)@, value@);
        }
        if multiple {
            if self.contains_value(&value) {
                self.values = removed(&self.values, &value);
            } else {
                let ghost pre = self@;
                self.values.push(value);
                proof {
                    assert(self@ =~= pre.push(value@));
                    if old(self).inv() {
                        assert forall|i: int, j: int|
                            0 <= i < self@.len() && 0 <= j < self@.len() && i
                                != j implies self@[i] != self@[j] by {
                            if i < pre.len() && j < pre.len() {
                            } else if i < pre.len() {
                                assert(pre.contains(pre[i]));
                            } else if j < pre.len() {
                                assert(pre.contains(pre[j]));
                            }
                        }
                    }
                }
            }
        } else {
            let mut single: Vec<String> = Vec::new();
            single.push(value);
            self.values = single;
            proof {
                assert(self@ =~= seq![value@]);
            }
        }
    }

    /// Remove `value` from the selection if present; a removal of an absent
    /// value changes nothing. What a chip's close control reports.
    pub fn remove_chip(&mut self, value: &String)
        ensures
            final (self)@ == seq_remove(old(self)@, value@),
            old(self).inv() ==> final (self).inv(),
    {
        proof {
            lemma_seq_remove_properties(old(self)@, value@);
        }
        self.values = removed(&self.values, value);
    }
}

/// A copy of `values` with every occurrence of `v` taken out, order kept.
fn removed(values: &Vec<String>, v: &String) -> (out: Vec<String>)
    ensures
        out.deep_view() == seq_remove(values.deep_view(), v@),
{
    let ghost dv = values.deep_view();
    let n = values.len();
    let mut out: Vec<String> = Vec::new();
    let mut i: usize = 0;
    while i < n
        invariant
            n == dv.len(),
            dv == values.deep_view(),
            i <= n,
            out.deep_view() == seq_remove(dv.take(i as int), v@),
        decreases n - i,
    {
        let ghost pre = out.deep_view();
        let keep = !(values[i] == *v);
        if keep {
            out.push(values[i].clone());
        }
        proof {
            assert(dv[i as int] == values@[i as int]@);
            assert(dv.take(i + 1 as int).drop_last() =~= dv.take(i as int));
            assert(dv.take(i + 1 as int).last() == dv[i as int]);
            if keep {
                assert(out.deep_view() =~= pre.push(dv[i as int]));
            }
        }
        i += 1;
    }
    proof {
        assert(dv.take(n as int) =~= dv);
    }
    out
}

} // verus!
