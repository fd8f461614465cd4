//! `seq`/`par` blocks: closing a block into a submitted group, and the
//! expansion of wait handles through the groups they name.
use vstd::prelude::*;

use crate::host::{
    dedup, group_name, handles_of, names_of, replaying, runtime_error, runtime_error_is,
    same_outside_batch, BatchMode, CollectedCommand, EngineAction, EngineError, HostState,
};
use crate::script_command::{BatchSubmissionItem, BatchSubmitMode, ScriptCommand};
use crate::tables::NamedTable;
use crate::text::{concat, decimal_string};

verus! {

broadcast use vstd::seq_lib::lemma_seq_contains_after_push;

/// The names held in a vector of strings.
pub open spec fn name_set(v: Seq<String>) -> Set<Seq<char>> {
    Set::new(|k: Seq<char>| names_of(v).contains(k))
}

/// How many groups have not been entered yet.
pub open spec fn unseen_groups(groups: Map<Seq<char>, Vec<String>>, seen: Set<Seq<char>>) -> nat {
    groups.dom().difference(seen).len()
}

/// Expands one handle, given the names already visited: a visited name
/// adds nothing, a group adds the expansion of its members, any other name
/// adds itself. `fuel` bounds the nesting; it never runs out when it
/// exceeds the number of groups not yet visited.
pub open spec fn expand_one(
    groups: Map<Seq<char>, Vec<String>>,
    seen: Set<Seq<char>>,
    handle: Seq<char>,
    fuel: nat,
) -> (Set<Seq<char>>, Seq<Seq<char>>)
    decreases fuel, 0nat,
{
    if seen.contains(handle) {
        (seen, Seq::empty())
    } else if groups.contains_key(handle) {
        if fuel == 0 {
            (seen.insert(handle), Seq::empty())
        } else {
            expand_list(groups, seen.insert(handle), names_of(groups[handle]@), (fuel - 1) as nat)
        }
    } else {
        (seen.insert(handle), seq![handle])
    }
}

/// Expands handles one after another, threading the visited names.
pub open spec fn expand_list(
    groups: Map<Seq<char>, Vec<String>>,
    seen: Set<Seq<char>>,
    handles: Seq<Seq<char>>,
    fuel: nat,
) -> (Set<Seq<char>>, Seq<Seq<char>>)
    decreases fuel, handles.len() + 1,
{
    if handles.len() == 0 {
        (seen, Seq::empty())
    } else {
        let first = expand_one(groups, seen, handles[0], fuel);
        let rest = expand_list(groups, first.0, handles.drop_first(), fuel);
        (rest.0, first.1 + rest.1)
    }
}

/// The animations that waiting on `handles` waits for: the handles in
/// order, each group replaced by the expansion of its members, each name
/// taken once.
pub open spec fn wait_expansion(groups: Map<Seq<char>, Vec<String>>, handles: Seq<Seq<char>>) -> Seq<
    Seq<char>,
> {
    expand_list(groups, Set::empty(), handles, groups.dom().len() + 1).1
}

proof fn lemma_unseen_shrinks(groups: Map<Seq<char>, Vec<String>>, s: Set<Seq<char>>, t: Set<Seq<char>>)
    requires
        groups.dom().finite(),
        s.subset_of(t),
    ensures
        unseen_groups(groups, t) <= unseen_groups(groups, s),
{
    vstd::set_lib::lemma_len_subset(groups.dom().difference(t), groups.dom().difference(s));
}

proof fn lemma_unseen_bounded(groups: Map<Seq<char>, Vec<String>>, s: Set<Seq<char>>)
    requires
        groups.dom().finite(),
    ensures
        unseen_groups(groups, s) <= groups.dom().len(),
{
    vstd::set_lib::lemma_len_subset(groups.dom().difference(s), groups.dom());
}

proof fn lemma_unseen_insert(groups: Map<Seq<char>, Vec<String>>, s: Set<Seq<char>>, h: Seq<char>)
    requires
        groups.dom().finite(),
        groups.contains_key(h),
        !s.contains(h),
    ensures
        unseen_groups(groups, s.insert(h)) + 1 == unseen_groups(groups, s),
{
    let d = groups.dom().difference(s);
    assert(groups.dom().difference(s.insert(h)) =~= d.remove(h));
    assert(d.contains(h));
}

proof fn lemma_name_set_push(v: Seq<String>, s: String)
    ensures
        name_set(v.push(s)) == name_set(v).insert(s@),
{
    assert(names_of(v.push(s)) =~= names_of(v).push(s@));
    assert(name_set(v.push(s)) =~= name_set(v).insert(s@));
}

/// Is `name` one of the names in `v`?
fn contains_name(v: &Vec<String>, name: &String) -> (r: bool)
    ensures
        r == names_of(v@).contains(name@),
{
    let mut i: usize = 0;
    while i < v.len()
        invariant
            0 <= i <= v@.len(),
            forall|j: int| 0 <= j < i ==> (#[trigger] v@[j])@ != name@,
        decreases v@.len() - i,
    {
        if v[i] == *name {
            assert(names_of(v@)[i as int] == name@);
            return true;
        }
        i = i + 1;
    }
    assert(!names_of(v@).contains(name@)) by {
        if names_of(v@).contains(name@) {
            let j = choose|j: int| 0 <= j < names_of(v@).len() && names_of(v@)[j] == name@;
            assert(v@[j]@ == name@);
        }
    }
    false
}

fn expand_wait_handle(
    groups: &NamedTable<Vec<String>>,
    handle: &String,
    seen: &mut Vec<String>,
    expanded: &mut Vec<String>,
    Ghost(fuel): Ghost<nat>,
)
    requires
        groups.wf(),
        unseen_groups(groups@, name_set(old(seen)@)) < fuel,
    ensures
        name_set(final(seen)@) == expand_one(groups@, name_set(old(seen)@), handle@, fuel).0,
        names_of(final(expanded)@) == names_of(old(expanded)@) + expand_one(
            groups@,
            name_set(old(seen)@),
            handle@,
            fuel,
        ).1,
        name_set(old(seen)@).subset_of(name_set(final(seen)@)),
    decreases fuel,
{
    proof {
        groups.lemma_finite();
    }
    let ghost s0 = name_set(seen@);
    let ghost e0 = names_of(expanded@);
    if contains_name(seen, handle) {
        assert(s0.contains(handle@));
        assert(e0 + Seq::<Seq<char>>::empty() =~= e0);
        return ;
    }
    let ghost before = seen@;
    seen.push(handle.clone());
    proof {
        lemma_name_set_push(before, *handle);
    }
    let ghost s1 = name_set(seen@);
    assert(s1 == s0.insert(handle@));
    match groups.get(handle) {
        Some(group) => {
            proof {
                lemma_unseen_insert(groups@, s0, handle@);
            }
            let ghost f1: nat = (fuel - 1) as nat;
            let ghost members = names_of(group@);
            assert(members.skip(0) =~= members);
            let mut i: usize = 0;
            while i < group.len()
                invariant
                    groups.wf(),
                    groups@.dom().finite(),
                    0 <= i <= group@.len(),
                    members == names_of(group@),
                    f1 + 1 == fuel,
                    unseen_groups(groups@, name_set(seen@)) < f1,
                    s0.subset_of(name_set(seen@)),
                    expand_list(groups@, s1, members, f1).0 == expand_list(
                        groups@,
                        name_set(seen@),
                        members.skip(i as int),
                        f1,
                    ).0,
                    e0 + expand_list(groups@, s1, members, f1).1 == names_of(expanded@)
                        + expand_list(groups@, name_set(seen@), members.skip(i as int), f1).1,
                decreases group@.len() - i,
            {
                let ghost sn = name_set(seen@);
                let ghost en = names_of(expanded@);
                let ghost tail = members.skip(i as int);
                assert(tail[0] == group@[i as int]@);
                assert(tail.drop_first() =~= members.skip(i + 1));
                expand_wait_handle(groups, &group[i], seen, expanded, Ghost(f1));
                proof {
                    lemma_unseen_shrinks(groups@, sn, name_set(seen@));
                    let first = expand_one(groups@, sn, tail[0], f1);
                    let rest = expand_list(groups@, first.0, tail.drop_first(), f1);
                    assert(expand_list(groups@, sn, tail, f1) == (rest.0, first.1 + rest.1));
                    assert(en + (first.1 + rest.1) =~= (en + first.1) + rest.1);
                }
                i = i + 1;
            }
            assert(members.skip(i as int) =~= Seq::<Seq<char>>::empty());
            assert(names_of(expanded@) + Seq::<Seq<char>>::empty() =~= names_of(expanded@));
        },
        None => {
            let ghost ex = expanded@;
            expanded.push(handle.clone());
            assert(names_of(expanded@) =~= names_of(ex).push(handle@));
            assert(names_of(expanded@) =~= e0 + seq![handle@]);
        },
    }
}

/// Expands wait handles through the groups of closed `seq`/`par` blocks.
pub fn expand_wait_handles(groups: &NamedTable<Vec<String>>, handles: &Vec<String>) -> (r: Vec<
    String,
>)
    requires
        groups.wf(),
    ensures
        names_of(r@) == wait_expansion(groups@, names_of(handles@)),
{
    proof {
        groups.lemma_finite();
    }
    let ghost fuel: nat = groups@.dom().len() + 1;
    let ghost all = names_of(handles@);
    let mut seen: Vec<String> = Vec::new();
    let mut expanded: Vec<String> = Vec::new();
    assert(name_set(seen@) =~= Set::<Seq<char>>::empty());
    assert(all.skip(0) =~= all);
    assert(names_of(expanded@) =~= Seq::<Seq<char>>::empty());
    assert(Seq::<Seq<char>>::empty() + expand_list(groups@, Set::empty(), all, fuel).1 =~= expand_list(
        groups@,
        Set::empty(),
        all,
        fuel,
    ).1);
    let mut i: usize = 0;
    while i < handles.len()
        invariant
            groups.wf(),
            groups@.dom().finite(),
            fuel == groups@.dom().len() + 1,
            all == names_of(handles@),
            0 <= i <= handles@.len(),
            expand_list(groups@, Set::empty(), all, fuel).1 == names_of(expanded@) + expand_list(
                groups@,
                name_set(seen@),
                all.skip(i as int),
                fuel,
            ).1,
        decreases handles@.len() - i,
    {
        let ghost sn = name_set(seen@);
        let ghost en = names_of(expanded@);
        let ghost tail = all.skip(i as int);
        assert(tail[0] == handles@[i as int]@);
        assert(tail.drop_first() =~= all.skip(i + 1));
        proof {
            lemma_unseen_bounded(groups@, sn);
        }
        expand_wait_handle(groups, &handles[i], &mut seen, &mut expanded, Ghost(fuel));
        proof {
            let first = expand_one(groups@, sn, tail[0], fuel);
            let rest = expand_list(groups@, first.0, tail.drop_first(), fuel);
            assert(expand_list(groups@, sn, tail, fuel) == (rest.0, first.1 + rest.1));
            assert(en + (first.1 + rest.1) =~= (en + first.1) + rest.1);
        }
        i = i + 1;
    }
    assert(all.skip(i as int) =~= Seq::<Seq<char>>::empty());
    assert(names_of(expanded@) + Seq::<Seq<char>>::empty() =~= names_of(expanded@));
    expanded
}

// ---------------------------------------------------------------------------
// Laws of waiting
// ---------------------------------------------------------------------------
pub open spec fn distinct(s: Seq<Seq<char>>) -> bool {
    forall|i: int, j: int| 0 <= i < j < s.len() ==> s[i] != s[j]
}

/// The handles a closed block registers never repeat.
pub proof fn law_group_handles_are_distinct(handles: Seq<Seq<char>>)
    ensures
        distinct(dedup(handles)),
        forall|k: Seq<char>| dedup(handles).contains(k) <==> handles.contains(k),
    decreases handles.len(),
{
    if handles.len() > 0 {
        law_group_handles_are_distinct(handles.drop_last());
        let d = dedup(handles.drop_last());
        assert forall|k: Seq<char>| dedup(handles).contains(k) <==> handles.contains(k) by {
            if handles.contains(k) {
                let i = choose|i: int| 0 <= i < handles.len() && handles[i] == k;
                if i < handles.len() - 1 {
                    assert(handles.drop_last()[i] == k);
                }
            }
            if handles.drop_last().contains(k) {
                let i = choose|i: int| 0 <= i < handles.drop_last().len() && handles.drop_last()[i] == k;
                assert(handles[i] == k);
            }
        }
    }
}

/// Plain animations, new to the visited names, each waited for once and in
/// order.
proof fn lemma_leaves_expand_to_themselves(
    groups: Map<Seq<char>, Vec<String>>,
    seen: Set<Seq<char>>,
    leaves: Seq<Seq<char>>,
    fuel: nat,
)
    requires
        distinct(leaves),
        forall|i: int| 0 <= i < leaves.len() ==> !groups.contains_key(#[trigger] leaves[i]),
        forall|i: int| 0 <= i < leaves.len() ==> !seen.contains(#[trigger] leaves[i]),
    ensures
        expand_list(groups, seen, leaves, fuel).1 == leaves,
    decreases leaves.len(),
{
    if leaves.len() > 0 {
        let h = leaves[0];
        assert(expand_one(groups, seen, h, fuel) == (seen.insert(h), seq![h]));
        let rest = leaves.drop_first();
        assert forall|i: int| 0 <= i < rest.len() implies !seen.insert(h).contains(#[trigger] rest[i]) by {
            assert(rest[i] == leaves[i + 1]);
        }
        assert forall|i: int| 0 <= i < rest.len() implies !groups.contains_key(#[trigger] rest[i]) by {
            assert(rest[i] == leaves[i + 1]);
        }
        lemma_leaves_expand_to_themselves(groups, seen.insert(h), rest, fuel);
        assert(seq![h] + rest =~= leaves);
    }
}

/// Waiting on a handle that names no group waits for that animation alone.
pub proof fn law_plain_handle_waits_for_itself(groups: Map<Seq<char>, Vec<String>>, handle: Seq<char>)
    requires
        !groups.contains_key(handle),
    ensures
        wait_expansion(groups, seq![handle]) == seq![handle],
{
    lemma_leaves_expand_to_themselves(groups, Set::empty(), seq![handle], groups.dom().len() + 1);
}

/// Waiting on the handle a block returned waits for the block's animations,
/// each once, in the order the block ran them.
pub proof fn law_group_waits_for_its_members(groups: Map<Seq<char>, Vec<String>>, group: Seq<char>)
    requires
        groups.contains_key(group),
        distinct(names_of(groups[group]@)),
        forall|i: int|
            0 <= i < names_of(groups[group]@).len() ==> !groups.contains_key(
                #[trigger] names_of(groups[group]@)[i],
            ),
    ensures
        wait_expansion(groups, seq![group]) == names_of(groups[group]@),
{
    let f: nat = groups.dom().len() + 1;
    let members = names_of(groups[group]@);
    let s = Set::<Seq<char>>::empty().insert(group);
    assert forall|i: int| 0 <= i < members.len() implies !s.contains(#[trigger] members[i]) by {
        assert(!groups.contains_key(members[i]));
    }
    lemma_leaves_expand_to_themselves(groups, s, members, (f - 1) as nat);
    assert(expand_one(groups, Set::empty(), group, f) == expand_list(groups, s, members, (f - 1) as nat));
    let first = expand_one(groups, Set::empty(), group, f);
    assert(expand_list(groups, first.0, seq![group].drop_first(), f).1 =~= Seq::<Seq<char>>::empty());
    assert(first.1 + Seq::<Seq<char>>::empty() =~= members);
}

// ---------------------------------------------------------------------------
// Closing a block
// ---------------------------------------------------------------------------
pub open spec fn submit_mode(mode: BatchMode) -> BatchSubmitMode {
    match mode {
        BatchMode::Sequence => BatchSubmitMode::Sequence,
        BatchMode::Parallel => BatchSubmitMode::Parallel,
    }
}

/// The collected commands, in order, as the engine receives them.
pub open spec fn submission_items<P>(commands: Seq<CollectedCommand<P>>) -> Seq<
    BatchSubmissionItem<P>,
> {
    Seq::new(
        commands.len(),
        |i: int|
            BatchSubmissionItem { handle: commands[i].handle, command: Box::new(commands[i].command) },
    )
}

/// A closed block: the group handle the script gets back, and what is sent.
#[derive(Debug)]
pub struct BatchSubmission<P> {
    pub group: String,
    pub action: EngineAction<P>,
}

/// Closing the open block: it gets the next group number, its handles
/// (first occurrences, in order) are registered under the group's name, and
/// its commands are submitted together unless a replay suppresses them.
pub open spec fn closed_block<P>(h0: HostState<P>, h1: HostState<P>, s: BatchSubmission<P>) -> bool {
    let scope = h0.batch.active->0;
    let n = (h0.batch.next_group_id + 1) as u64;
    let name = group_name(scope.mode, n);
    &&& s.group@ == name
    &&& h1.batch.active is None
    &&& h1.batch.next_group_id == n
    &&& h1.batch.groups@ == h0.batch.groups@.insert(name, h1.batch.groups@[name])
    &&& names_of(h1.batch.groups@[name]@) == dedup(handles_of(scope.commands@))
    &&& same_outside_batch(h1, h0)
    &&& replaying(h0) ==> s.action is Unit
    &&& !replaying(h0) ==> (s.action matches EngineAction::Send(
        ScriptCommand::SubmitBatch { mode, items },
    ) && mode == submit_mode(scope.mode) && items@ == submission_items(scope.commands@))
}

/// The first occurrence of each handle, in order.
fn dedup_handles<P>(commands: &Vec<CollectedCommand<P>>) -> (r: Vec<String>)
    ensures
        names_of(r@) == dedup(handles_of(commands@)),
{
    let mut out: Vec<String> = Vec::new();
    let mut i: usize = 0;
    assert(handles_of(commands@).take(0) =~= Seq::<Seq<char>>::empty());
    assert(names_of(out@) =~= Seq::<Seq<char>>::empty());
    while i < commands.len()
        invariant
            0 <= i <= commands@.len(),
            names_of(out@) == dedup(handles_of(commands@).take(i as int)),
        decreases commands@.len() - i,
    {
        let ghost before = out@;
        let ghost prefix = handles_of(commands@).take(i as int);
        let ghost next = handles_of(commands@).take(i + 1);
        assert(next.drop_last() =~= prefix);
        assert(next.last() == commands@[i as int].handle@);
        if !contains_name(&out, &commands[i].handle) {
            out.push(commands[i].handle.clone());
            assert(names_of(out@) =~= names_of(before).push(commands@[i as int].handle@));
        }
        i = i + 1;
    }
    assert(handles_of(commands@).take(i as int) =~= handles_of(commands@));
    out
}

/// Moves collected commands into submission items, keeping their order.
fn into_items<P>(commands: Vec<CollectedCommand<P>>) -> (r: Vec<BatchSubmissionItem<P>>)
    ensures
        r@ == submission_items(commands@),
{
    let ghost all = commands@;
    let mut rest = commands;
    let mut items: Vec<BatchSubmissionItem<P>> = Vec::new();
    assert(all.skip(0) =~= all);
    while rest.len() > 0
        invariant
            items@.len() + rest@.len() == all.len(),
            rest@ == all.skip(items@.len() as int),
            items@ == submission_items(all).take(items@.len() as int),
        decreases rest@.len(),
    {
        let ghost k: int = items@.len() as int;
        let c = rest.remove(0);
        assert(rest@ =~= all.skip(k + 1));
        items.push(BatchSubmissionItem { handle: c.handle, command: Box::new(c.command) });
        assert(items@ =~= submission_items(all).take(k + 1));
    }
    assert(items@ =~= submission_items(all));
    items
}

impl<P> HostState<P> {
    /// Closes the open `seq`/`par` block into a group and submits it.
    pub fn finish_batch(&mut self) -> (r: Result<BatchSubmission<P>, EngineError>)
        requires
            old(self).wf(),
            old(self).batch.next_group_id < u64::MAX,
        ensures
            final(self).wf(),
            old(self).batch.active is None ==> *final(self) == *old(self) && r is Err
                && runtime_error_is(r->Err_0, "internal error: no active seq/par scope"@),
            old(self).batch.active is Some ==> r is Ok && closed_block(
                *old(self),
                *final(self),
                r->Ok_0,
            ),
    {
        let scope = match self.batch.active.take() {
            Some(s) => s,
            None => {
                return Err(runtime_error("internal error: no active seq/par scope"));
            },
        };
        let deduped = dedup_handles(&scope.commands);
        self.batch.next_group_id = self.batch.next_group_id + 1;
        let number = decimal_string(self.batch.next_group_id);
        let group = match scope.mode {
            BatchMode::Sequence => concat("seq-", number.as_str()),
            BatchMode::Parallel => concat("par-", number.as_str()),
        };
        let ghost g0 = self.batch.groups@;
        self.batch.groups.insert(group.clone(), deduped);
        assert(self.batch.groups@ =~= g0.insert(group@, self.batch.groups@[group@]));
        let mode = match scope.mode {
            BatchMode::Sequence => BatchSubmitMode::Sequence,
            BatchMode::Parallel => BatchSubmitMode::Parallel,
        };
        let items = into_items(scope.commands);
        let action = self.send_only(ScriptCommand::SubmitBatch { mode, items });
        Ok(BatchSubmission { group, action })
    }
}

} // verus!
