//! The table of commands that wait for the host's answer, filed by command
//! identifier, and the steps that fill and drain it.

use std::collections::HashMap;

use vstd::prelude::*;

use crate::binding::{self, WasmCmdRequest, WasmUnblock, WasmWfCmd};
use crate::encode::workflow_command_bytes;
use crate::interface::{
    cmd_id_from_variant, command_id_of, is_blocking_command, CommandID, UnblockEvent,
};
use crate::proto::{StartTimer, WorkflowCommandVariant};
use crate::wasm::{encode_wf_cmd, unblock_event_of};

verus! {

broadcast use vstd::std_specs::hash::group_hash_axioms;

/// Pending commands, each with what resumes the workflow code that waits on
/// it
pub struct UnblockMap<U> {
    entries: HashMap<u64, U>,
}

impl<U> View for UnblockMap<U> {
    type V = Map<CommandID, U>;

    closed spec fn view(&self) -> Map<CommandID, U> {
        Map::new(
            |id: CommandID| self.entries@.contains_key(id.key()),
            |id: CommandID| self.entries@[id.key()],
        )
    }
}

impl<U> UnblockMap<U> {
    /// The table holds finitely many pending commands
    proof fn lemma_view_finite(&self)
        ensures
            self@.dom().finite(),
    {
        let keys = self.entries@.dom();
        let f = |k: u64| CommandID::from_key(k);
        keys.lemma_map_finite(f);
        let img = keys.map(f);
        assert forall|id: CommandID| self@.dom().contains(id) implies img.contains(id) by {
            crate::interface::lemma_command_key_injective(id, id);
            assert(keys.contains(id.key()));
            assert(f(id.key()) == id);
        }
        vstd::set_lib::lemma_set_subset_finite(img, self@.dom());
    }

    /// A table with no pending command
    pub fn new() -> (m: Self)
        ensures
            m@ == Map::<CommandID, U>::empty(),
            m@.dom().finite(),
    {
        let m = UnblockMap { entries: HashMap::new() };
        assert(m@ =~= Map::<CommandID, U>::empty());
        m
    }

    /// Files `u` under `id`, replacing what was filed there
    pub fn insert(&mut self, id: CommandID, u: U)
        ensures
            final(self)@ == old(self)@.insert(id, u),
            final(self)@.dom().finite(),
    {
        let k = id.to_key();
        self.entries.insert(k, u);
        proof {
            assert forall|other: CommandID| #[trigger] other.key() == k implies other == id by {
                crate::interface::lemma_command_key_injective(other, id);
            }
        }
        assert(self@ =~= old(self)@.insert(id, u));
        proof {
            self.lemma_view_finite();
        }
    }

    /// Takes out what is filed under `id`, if anything
    pub fn remove(&mut self, id: CommandID) -> (r: Option<U>)
        ensures
            r == (if old(self)@.contains_key(id) {
                Some(old(self)@[id])
            } else {
                None
            }),
            final(self)@ == old(self)@.remove(id),
            final(self)@.dom().finite(),
    {
        let k = id.to_key();
        let r = self.entries.remove(&k);
        proof {
            assert forall|other: CommandID| #[trigger] other.key() == k implies other == id by {
                crate::interface::lemma_command_key_injective(other, id);
            }
        }
        assert(self@ =~= old(self)@.remove(id));
        proof {
            self.lemma_view_finite();
        }
        r
    }

    /// Whether something is filed under `id`
    pub fn contains(&self, id: CommandID) -> (b: bool)
        ensures
            b == self@.contains_key(id),
    {
        let k = id.to_key();
        self.entries.contains_key(&k)
    }
}

/// The command that an answer from the host resumes
pub open spec fn unblock_id_of(dat: WasmUnblock) -> CommandID {
    match dat {
        WasmUnblock::Timer(seq, _) => CommandID::Timer(seq),
    }
}

/// Computes `unblock_id_of`
pub fn unblock_id(dat: &WasmUnblock) -> (id: CommandID)
    ensures
        id == unblock_id_of(*dat),
{
    match dat {
        WasmUnblock::Timer(seq, _) => CommandID::Timer(*seq),
    }
}

/// Files the resumer of a blocking command under the command's identifier
pub fn add_cmd_to_unblock_map<U>(
    map: &mut UnblockMap<U>,
    variant: &WorkflowCommandVariant,
    unblocker: U,
)
    requires
        is_blocking_command(*variant),
    ensures
        final(map)@ == old(map)@.insert(command_id_of(*variant), unblocker),
        final(map)@.dom().finite(),
{
    let cmd_id = cmd_id_from_variant(variant);
    map.insert(cmd_id, unblocker);
}

/// Takes a new blocking command from the workflow: files its resumer and
/// gives the command in the form the host reads
pub fn gather_new_command<U>(
    map: &mut UnblockMap<U>,
    cmd: WorkflowCommandVariant,
    unblocker: U,
) -> (r: WasmWfCmd)
    requires
        is_blocking_command(cmd),
    ensures
        final(map)@ == old(map)@.insert(command_id_of(cmd), unblocker),
        final(map)@.dom().finite(),
        r matches WasmWfCmd::NewCmd(req) && req.wf_cmd_variant_proto@ == workflow_command_bytes(cmd),
{
    add_cmd_to_unblock_map(map, &cmd, unblocker);
    WasmWfCmd::NewCmd(encode_wf_cmd(cmd))
}

/// Takes an answer from the host: removes the resumer of the command it
/// answers and gives it with the event to hand it. The answered command must
/// be pending; once answered it no longer is, so each resumer is handed out
/// at most once.
pub fn unblock<U>(map: &mut UnblockMap<U>, dat: WasmUnblock) -> (r: (U, UnblockEvent))
    requires
        old(map)@.contains_key(unblock_id_of(dat)),
    ensures
        final(map)@ == old(map)@.remove(unblock_id_of(dat)),
        !final(map)@.contains_key(unblock_id_of(dat)),
        final(map)@.dom().finite(),
        r == (old(map)@[unblock_id_of(dat)], unblock_event_of(dat)),
{
    let id = unblock_id(&dat);
    let unblocker = map.remove(id);
    match unblocker {
        Some(u) => (u, UnblockEvent::from(dat)),
        None => vstd::pervasive::unreached(),
    }
}

/// A timer command and the host's answer to it name the same command: the
/// answer carrying the timer's sequence number resumes that timer.
pub proof fn lemma_timer_answer_matches_command(t: StartTimer, res: binding::TimerResult)
    ensures
        unblock_id_of(WasmUnblock::Timer(t.seq, res)) == command_id_of(
            WorkflowCommandVariant::StartTimer(t),
        ),
{
}

/// After a timer command is filed, the host's answer to it finds the filed
/// resumer, and taking it out leaves the table as it would be had the
/// command never been filed.
pub proof fn lemma_register_then_unblock<U>(
    m: Map<CommandID, U>,
    t: StartTimer,
    u: U,
    res: binding::TimerResult,
)
    ensures
        ({
            let filed = m.insert(command_id_of(WorkflowCommandVariant::StartTimer(t)), u);
            let id = unblock_id_of(WasmUnblock::Timer(t.seq, res));
            &&& filed.contains_key(id)
            &&& filed[id] == u
            &&& filed.remove(id) == m.remove(id)
        }),
{
    let filed = m.insert(command_id_of(WorkflowCommandVariant::StartTimer(t)), u);
    let id = unblock_id_of(WasmUnblock::Timer(t.seq, res));
    assert(filed.remove(id) =~= m.remove(id));
}

/// Answers to one command leave every other pending command in place.
pub proof fn lemma_unblock_leaves_others<U>(m: Map<CommandID, U>, dat: WasmUnblock, other: CommandID)
    requires
        m.contains_key(other),
        other != unblock_id_of(dat),
    ensures
        m.remove(unblock_id_of(dat)).contains_key(other),
        m.remove(unblock_id_of(dat))[other] == m[other],
{
}

} // verus!
