//! The frame graph: the passes of a frame in the order in which they run.
//!
//! A pass is registered under a label, together with the labels of the passes
//! that have to run before it and of those that have to run after it. The
//! graph keeps its passes in an order that honours every such edge, and that
//! order is the order of execution.

use vstd::prelude::*;

verus! {

/// A pass as it is registered.
#[derive(Clone, Debug, PartialEq, Eq)]
pub struct PassEntry {
    pub label: String,
    /// Labels of the passes that this pass runs after.
    pub after: Vec<String>,
    /// Labels of the passes that this pass runs before.
    pub before: Vec<String>,
}

/// Mathematical value of a [`PassEntry`].
pub struct PassModel {
    pub label: Seq<char>,
    pub after: Seq<Seq<char>>,
    pub before: Seq<Seq<char>>,
}

/// Why a pass was not registered.
#[derive(Clone, Copy, Debug, PartialEq, Eq, Structural)]
pub enum GraphError {
    /// A pass with this label is registered already.
    DuplicateLabel,
    /// The pass names a pass that is not registered.
    UnknownPass,
    /// A pass that has to run before the new one comes, in the order as it
    /// stands, no earlier than one that has to run after it.
    Cycle,
}

/// The labels that the strings spell.
pub open spec fn names_of(names: Seq<String>) -> Seq<Seq<char>> {
    Seq::new(names.len(), |k: int| names[k]@)
}

impl View for PassEntry {
    type V = PassModel;

    open spec fn view(&self) -> PassModel {
        PassModel {
            label: self.label@,
            after: names_of(self.after@),
            before: names_of(self.before@),
        }
    }
}

/// A pass with the label is registered.
pub open spec fn has_pass(order: Seq<PassModel>, label: Seq<char>) -> bool {
    exists|i: int| 0 <= i < order.len() && (#[trigger] order[i]).label == label
}

/// The pass at place `i` has the label, and no pass before it has.
pub open spec fn is_first(order: Seq<PassModel>, label: Seq<char>, i: int) -> bool {
    &&& 0 <= i < order.len()
    &&& order[i].label == label
    &&& forall|j: int| 0 <= j < i ==> (#[trigger] order[j]).label != label
}

/// The place of the first pass with the label in the order. In a sound order
/// it is the only one.
pub open spec fn index_of(order: Seq<PassModel>, label: Seq<char>) -> int {
    choose|i: int| is_first(order, label, i)
}

/// Every name is the label of a registered pass.
pub open spec fn all_known(order: Seq<PassModel>, names: Seq<Seq<char>>) -> bool {
    forall|k: int| 0 <= k < names.len() ==> has_pass(order, #[trigger] names[k])
}

/// A pass with the label has a place before `i`.
pub open spec fn placed_before(order: Seq<PassModel>, label: Seq<char>, i: int) -> bool {
    exists|j: int| 0 <= j < i && j < order.len() && (#[trigger] order[j]).label == label
}

/// A pass with the label has a place after `i`.
pub open spec fn placed_after(order: Seq<PassModel>, label: Seq<char>, i: int) -> bool {
    exists|j: int| i < j < order.len() && (#[trigger] order[j]).label == label
}

/// The order is sound: no label occurs twice, and every pass comes after the
/// passes it runs after and before the passes it runs before.
pub open spec fn order_wf(order: Seq<PassModel>) -> bool {
    &&& forall|i: int, j: int|
        0 <= i < j < order.len() ==> (#[trigger] order[i]).label != (#[trigger] order[j]).label
    &&& forall|i: int, k: int|
        0 <= i < order.len() && 0 <= k < order[i].after.len() ==> placed_before(
            order,
            #[trigger] order[i].after[k],
            i,
        )
    &&& forall|i: int, k: int|
        0 <= i < order.len() && 0 <= k < order[i].before.len() ==> placed_after(
            order,
            #[trigger] order[i].before[k],
            i,
        )
}

/// The first place that lies behind every named pass: zero if none is named.
pub open spec fn behind_all(order: Seq<PassModel>, names: Seq<Seq<char>>) -> int
    decreases names.len(),
{
    if names.len() == 0 {
        0
    } else {
        let rest = behind_all(order, names.drop_last());
        let here = index_of(order, names.last()) + 1;
        if here > rest {
            here
        } else {
            rest
        }
    }
}

/// The place of the earliest named pass: the end of the order if none is
/// named.
pub open spec fn earliest_of(order: Seq<PassModel>, names: Seq<Seq<char>>) -> int
    decreases names.len(),
{
    if names.len() == 0 {
        order.len() as int
    } else {
        let rest = earliest_of(order, names.drop_last());
        let here = index_of(order, names.last());
        if here < rest {
            here
        } else {
            rest
        }
    }
}

/// Where a new pass goes, or why it cannot be registered. The pass goes
/// directly before the earliest pass that it runs before, and to the end of
/// the order if there is none.
pub open spec fn placement(order: Seq<PassModel>, pass: PassModel) -> Result<int, GraphError> {
    if has_pass(order, pass.label) {
        Err(GraphError::DuplicateLabel)
    } else if !all_known(order, pass.after) || !all_known(order, pass.before) {
        Err(GraphError::UnknownPass)
    } else if behind_all(order, pass.after) > earliest_of(order, pass.before) {
        Err(GraphError::Cycle)
    } else {
        Ok(earliest_of(order, pass.before))
    }
}

/// The passes of a frame, in the order in which they run.
pub struct FrameGraph {
    passes: Vec<PassEntry>,
}

impl View for FrameGraph {
    type V = Seq<PassModel>;

    closed spec fn view(&self) -> Seq<PassModel> {
        Seq::new(self.passes@.len(), |i: int| self.passes@[i]@)
    }
}

impl FrameGraph {
    /// A graph without passes.
    pub fn new() -> (graph: FrameGraph)
        ensures
            graph@ == Seq::<PassModel>::empty(),
            order_wf(graph@),
    {
        let graph = FrameGraph { passes: Vec::new() };
        graph
    }

    /// Number of registered passes.
    pub fn len(&self) -> (n: usize)
        ensures
            n == self@.len(),
    {
        self.passes.len()
    }

    /// The place of the pass with the label in the order of execution.
    pub fn position(&self, label: &String) -> (place: Option<usize>)
        ensures
            match place {
                Some(i) => {
                    &&& has_pass(self@, label@)
                    &&& is_first(self@, label@, i as int)
                    &&& i == index_of(self@, label@)
                },
                None => !has_pass(self@, label@),
            },
    {
        let n = self.passes.len();
        let mut i: usize = 0;
        while i < n
            invariant
                n == self.passes@.len(),
                n == self@.len(),
                i <= n,
                forall|k: int| 0 <= k < i ==> (#[trigger] self@[k]).label != label@,
            decreases n - i,
        {
            if self.passes[i].label == *label {
                proof {
                    lemma_first_is_unique(self@, label@, i as int);
                }
                return Some(i);
            }
            i += 1;
        }
        None
    }

    /// The labels of the passes, in the order of execution.
    pub fn order(&self) -> (labels: Vec<String>)
        ensures
            labels@.len() == self@.len(),
            forall|i: int| 0 <= i < labels@.len() ==> (#[trigger] labels@[i])@ == self@[i].label,
    {
        let n = self.passes.len();
        let mut labels: Vec<String> = Vec::new();
        let mut i: usize = 0;
        while i < n
            invariant
                n == self.passes@.len(),
                n == self@.len(),
                i <= n,
                labels@.len() == i,
                forall|k: int| 0 <= k < i ==> (#[trigger] labels@[k])@ == self@[k].label,
            decreases n - i,
        {
            labels.push(self.passes[i].label.clone());
            i += 1;
        }
        labels
    }

    /// The first place behind every named pass, or nothing if a name is not
    /// the label of a registered pass.
    fn place_behind(&self, names: &Vec<String>) -> (place: Option<usize>)
        ensures
            match place {
                Some(p) => {
                    &&& all_known(self@, names_of(names@))
                    &&& p == behind_all(self@, names_of(names@))
                },
                None => !all_known(self@, names_of(names@)),
            },
    {
        let ghost all = names_of(names@);
        let n = names.len();
        let total = self.passes.len();
        let mut place: usize = 0;
        let mut k: usize = 0;
        while k < n
            invariant
                total == self@.len(),
                all == names_of(names@),
                n == names@.len(),
                k <= n,
                place <= self@.len(),
                all_known(self@, all.take(k as int)),
                place == behind_all(self@, all.take(k as int)),
            decreases n - k,
        {
            let found = self.position(&names[k]);
            proof {
                assert(all.take(k + 1).drop_last() =~= all.take(k as int));
                assert(all.take(k + 1).last() == all[k as int]);
            }
            match found {
                None => {
                    return None;
                },
                Some(j) => {
                    if j + 1 > place {
                        place = j + 1;
                    }
                    assert forall|l: int| 0 <= l < k + 1 implies has_pass(
                        self@,
                        #[trigger] all.take(k + 1)[l],
                    ) by {
                        // below `k` the name was known before, and name `k` was just found
                    }
                },
            }
            k += 1;
        }
        assert(all.take(n as int) =~= all);
        Some(place)
    }

    /// The place of the earliest named pass, or nothing if a name is not the
    /// label of a registered pass.
    fn place_ahead(&self, names: &Vec<String>) -> (place: Option<usize>)
        ensures
            match place {
                Some(p) => {
                    &&& all_known(self@, names_of(names@))
                    &&& p == earliest_of(self@, names_of(names@))
                },
                None => !all_known(self@, names_of(names@)),
            },
    {
        let ghost all = names_of(names@);
        let n = names.len();
        let mut place: usize = self.passes.len();
        let mut k: usize = 0;
        while k < n
            invariant
                all == names_of(names@),
                n == names@.len(),
                k <= n,
                place <= self@.len(),
                all_known(self@, all.take(k as int)),
                place == earliest_of(self@, all.take(k as int)),
            decreases n - k,
        {
            let found = self.position(&names[k]);
            proof {
                assert(all.take(k + 1).drop_last() =~= all.take(k as int));
                assert(all.take(k + 1).last() == all[k as int]);
            }
            match found {
                None => {
                    return None;
                },
                Some(j) => {
                    if j < place {
                        place = j;
                    }
                    assert forall|l: int| 0 <= l < k + 1 implies has_pass(
                        self@,
                        #[trigger] all.take(k + 1)[l],
                    ) by {
                        // below `k` the name was known before, and name `k` was just found
                    }
                },
            }
            k += 1;
        }
        assert(all.take(n as int) =~= all);
        Some(place)
    }

    /// Registers a pass. It is placed directly before the earliest pass that
    /// it runs before, or at the end if it names none, and the passes that
    /// were registered before keep their order. Returns the place of the new
    /// pass; a pass that cannot be registered leaves the graph as it was.
    pub fn add_pass(&mut self, pass: PassEntry) -> (result: Result<usize, GraphError>)
        ensures
            order_wf(old(self)@) ==> order_wf(final(self)@),
            match placement(old(self)@, pass@) {
                Ok(place) => result matches Ok(p) && p == place && final(self)@ == old(
                    self,
                )@.insert(place, pass@),
                Err(e) => result == Err::<usize, GraphError>(e) && final(self)@ == old(self)@,
            },
    {
        if self.position(&pass.label).is_some() {
            return Err(GraphError::DuplicateLabel);
        }
        let behind = match self.place_behind(&pass.after) {
            Some(p) => p,
            None => {
                return Err(GraphError::UnknownPass);
            },
        };
        let ahead = match self.place_ahead(&pass.before) {
            Some(p) => p,
            None => {
                return Err(GraphError::UnknownPass);
            },
        };
        if behind > ahead {
            return Err(GraphError::Cycle);
        }
        proof {
            lemma_placement_in_range(self@, pass@);
            if order_wf(self@) {
                lemma_registration_keeps_order(self@, pass@);
            }
        }
        self.passes.insert(ahead, pass);
        assert(self@ =~= old(self)@.insert(ahead as int, pass@));
        Ok(ahead)
    }
}

/// The first pass with a label is found at one place only.
pub proof fn lemma_first_is_unique(order: Seq<PassModel>, label: Seq<char>, i: int)
    requires
        is_first(order, label, i),
    ensures
        has_pass(order, label),
        index_of(order, label) == i,
{
    // whichever place is chosen is a first place too, and two first places
    // cannot lie one before the other
    assert(is_first(order, label, index_of(order, label)));
}

/// A label that is registered is found at its first place.
pub proof fn lemma_has_first(order: Seq<PassModel>, label: Seq<char>)
    requires
        has_pass(order, label),
    ensures
        is_first(order, label, index_of(order, label)),
{
    let i = choose|i: int| 0 <= i < order.len() && (#[trigger] order[i]).label == label;
    lemma_first_at_or_before(order, label, i);
}

proof fn lemma_first_at_or_before(order: Seq<PassModel>, label: Seq<char>, i: int)
    requires
        0 <= i < order.len(),
        order[i].label == label,
    ensures
        exists|j: int| is_first(order, label, j),
    decreases i,
{
    if exists|j: int| 0 <= j < i && (#[trigger] order[j]).label == label {
        let j = choose|j: int| 0 <= j < i && (#[trigger] order[j]).label == label;
        lemma_first_at_or_before(order, label, j);
    } else {
        assert(is_first(order, label, i));
    }
}

/// Every named pass has its place before the first place behind all of them.
pub proof fn lemma_behind_all(order: Seq<PassModel>, names: Seq<Seq<char>>)
    requires
        all_known(order, names),
    ensures
        0 <= behind_all(order, names) <= order.len(),
        forall|k: int|
            0 <= k < names.len() ==> placed_before(
                order,
                #[trigger] names[k],
                behind_all(order, names),
            ),
    decreases names.len(),
{
    if names.len() > 0 {
        let rest = names.drop_last();
        assert(all_known(order, rest)) by {
            assert forall|k: int| 0 <= k < rest.len() implies has_pass(order, #[trigger] rest[k]) by {
                assert(rest[k] == names[k]);
            }
        }
        lemma_behind_all(order, rest);
        lemma_has_first(order, names.last());
        let here = index_of(order, names.last());
        assert forall|k: int| 0 <= k < names.len() implies placed_before(
            order,
            #[trigger] names[k],
            behind_all(order, names),
        ) by {
            if k == names.len() - 1 {
                assert(order[here].label == names[k]);
            } else {
                assert(placed_before(order, rest[k], behind_all(order, rest)));
            }
        }
    }
}

/// Every named pass has its place at or after the place of the earliest of
/// them.
pub proof fn lemma_earliest_of(order: Seq<PassModel>, names: Seq<Seq<char>>)
    requires
        all_known(order, names),
    ensures
        0 <= earliest_of(order, names) <= order.len(),
        forall|k: int|
            0 <= k < names.len() ==> placed_after(
                order,
                #[trigger] names[k],
                earliest_of(order, names) - 1,
            ),
    decreases names.len(),
{
    if names.len() > 0 {
        let rest = names.drop_last();
        assert(all_known(order, rest)) by {
            assert forall|k: int| 0 <= k < rest.len() implies has_pass(order, #[trigger] rest[k]) by {
                assert(rest[k] == names[k]);
            }
        }
        lemma_earliest_of(order, rest);
        lemma_has_first(order, names.last());
        let here = index_of(order, names.last());
        assert forall|k: int| 0 <= k < names.len() implies placed_after(
            order,
            #[trigger] names[k],
            earliest_of(order, names) - 1,
        ) by {
            if k == names.len() - 1 {
                assert(order[here].label == names[k]);
            } else {
                assert(placed_after(order, rest[k], earliest_of(order, rest) - 1));
            }
        }
    }
}

/// A pass that can be registered is given a place inside the order or at its
/// end.
pub proof fn lemma_placement_in_range(order: Seq<PassModel>, pass: PassModel)
    requires
        placement(order, pass) is Ok,
    ensures
        0 <= placement(order, pass)->Ok_0 <= order.len(),
{
    lemma_earliest_of(order, pass.before);
}

/// Registration keeps the order sound: with the new pass in its place, still
/// no label occurs twice and every pass, the new one included, comes after
/// the passes it runs after and before the passes it runs before.
pub proof fn lemma_registration_keeps_order(order: Seq<PassModel>, pass: PassModel)
    requires
        order_wf(order),
        placement(order, pass) is Ok,
    ensures
        order_wf(order.insert(placement(order, pass)->Ok_0, pass)),
{
    let place = earliest_of(order, pass.before);
    lemma_behind_all(order, pass.after);
    lemma_earliest_of(order, pass.before);
    assert forall|k: int| 0 <= k < pass.after.len() implies placed_before(
        order,
        #[trigger] pass.after[k],
        place,
    ) by {
        // the pass lies before `behind_all`, which is no later than `place`
        assert(placed_before(order, pass.after[k], behind_all(order, pass.after)));
    }
    lemma_insert_keeps_order(order, place, pass);
}

/// A new pass without edges is placed at the end of the order.
pub proof fn lemma_pass_without_edges_goes_last(order: Seq<PassModel>, pass: PassModel)
    requires
        !has_pass(order, pass.label),
        pass.after.len() == 0,
        pass.before.len() == 0,
    ensures
        placement(order, pass) == Ok::<int, GraphError>(order.len() as int),
{
}

/// A pass that is put in a place behind every pass it runs after and not
/// behind any pass it runs before leaves the order sound.
pub proof fn lemma_insert_keeps_order(order: Seq<PassModel>, place: int, pass: PassModel)
    requires
        order_wf(order),
        0 <= place <= order.len(),
        !has_pass(order, pass.label),
        forall|k: int|
            0 <= k < pass.after.len() ==> placed_before(order, #[trigger] pass.after[k], place),
        forall|k: int|
            0 <= k < pass.before.len() ==> placed_after(
                order,
                #[trigger] pass.before[k],
                place - 1,
            ),
    ensures
        order_wf(order.insert(place, pass)),
{
    let next = order.insert(place, pass);
    assert forall|i: int, j: int| 0 <= i < j < next.len() implies (#[trigger] next[i]).label != (
    #[trigger] next[j]).label by {
        // both passes are old ones, in their old order, or one of them is
        // the new pass, whose label no old pass has
        let oi = if i < place { i } else { i - 1 };
        let oj = if j < place { j } else { j - 1 };
        if i != place {
            assert(next[i] == order[oi]);
        }
        if j != place {
            assert(next[j] == order[oj]);
        }
    }
    assert forall|i: int, k: int|
        0 <= i < next.len() && 0 <= k < next[i].after.len() implies placed_before(
        next,
        #[trigger] next[i].after[k],
        i,
    ) by {
        if i == place {
            let j = choose|j: int|
                0 <= j < place && j < order.len() && (#[trigger] order[j]).label == pass.after[k];
            assert(next[j] == order[j]);
        } else {
            let oi = if i < place { i } else { i - 1 };
            assert(next[i] == order[oi]);
            let j = choose|j: int|
                0 <= j < oi && j < order.len() && (#[trigger] order[j]).label == order[oi].after[k];
            let nj = if j < place { j } else { j + 1 };
            assert(next[nj] == order[j]);
        }
    }
    assert forall|i: int, k: int|
        0 <= i < next.len() && 0 <= k < next[i].before.len() implies placed_after(
        next,
        #[trigger] next[i].before[k],
        i,
    ) by {
        if i == place {
            let j = choose|j: int|
                place - 1 < j < order.len() && (#[trigger] order[j]).label == pass.before[k];
            assert(next[j + 1] == order[j]);
        } else {
            let oi = if i < place { i } else { i - 1 };
            assert(next[i] == order[oi]);
            let j = choose|j: int|
                oi < j < order.len() && (#[trigger] order[j]).label == order[oi].before[k];
            let nj = if j < place { j } else { j + 1 };
            assert(next[nj] == order[j]);
        }
    }
}

} // verus!
