//! Laws of whole boot runs.
//!
//! The orchestrator is driven one event at a time; these definitions fold the
//! transition relation over a whole event sequence, so that the safety laws of
//! the boot — a failed gate or a rejected image never leads to a memory
//! operation, and a kernel is only loaded into a region reserved at its exact
//! size — can be stated and proved over every possible run.

use vstd::prelude::*;

use crate::boot::spec_step;
use crate::boot::BootAction;
use crate::boot::BootEvent;
use crate::boot::BootState;
use crate::boot::FatalError;
use crate::capability::capability_field;
use crate::capability::MIN_CAPABILITY_LEVEL;

verus! {

/// The state after feeding `events` to the machine in order.  An event the
/// machine does not accept changes nothing (a driver that checks acceptance
/// never produces one).
pub open spec fn run_state(s: BootState, events: Seq<BootEvent>) -> BootState
    decreases events.len(),
{
    if events.len() == 0 {
        s
    } else {
        match spec_step(s, events.first()) {
            Some(r) => run_state(r.0, events.drop_first()),
            None => run_state(s, events.drop_first()),
        }
    }
}

/// The actions the machine requests while feeding `events` to it in order.
pub open spec fn run_actions(s: BootState, events: Seq<BootEvent>) -> Seq<BootAction>
    decreases events.len(),
{
    if events.len() == 0 {
        Seq::<BootAction>::empty()
    } else {
        match spec_step(s, events.first()) {
            Some(r) => seq![r.1] + run_actions(r.0, events.drop_first()),
            None => run_actions(s, events.drop_first()),
        }
    }
}

/// An action that touches physical memory or hands control to it.
pub open spec fn is_memory_action(a: BootAction) -> bool {
    ||| a is ReserveMemory
    ||| a is LoadKernel
    ||| a is TransferControl
}

/// No action of the sequence touches memory.
pub open spec fn no_memory_actions(actions: Seq<BootAction>) -> bool {
    forall|i: int| 0 <= i < actions.len() ==> !is_memory_action(actions[i])
}

/// Every action of the sequence is the halt diagnostic for `error`: nothing
/// is located, parsed, reserved, loaded or jumped to.
pub open spec fn only_halt_actions(actions: Seq<BootAction>, error: FatalError) -> bool {
    forall|i: int| 0 <= i < actions.len() ==> actions[i] == (BootAction::Halt { error })
}

/// Law: a halted machine stays halted under every further event sequence,
/// and the only action it ever requests again is its halt diagnostic; in
/// particular it never again requests a memory operation.
pub proof fn lemma_halt_is_absorbing(error: FatalError, events: Seq<BootEvent>)
    ensures
        run_state(BootState::Halted { error }, events) == (BootState::Halted { error }),
        only_halt_actions(run_actions(BootState::Halted { error }, events), error),
        no_memory_actions(run_actions(BootState::Halted { error }, events)),
    decreases events.len(),
{
    let s = BootState::Halted { error };
    if events.len() == 0 {
    } else {
        lemma_halt_is_absorbing(error, events.drop_first());
        let rest = run_actions(s, events.drop_first());
        assert(run_actions(s, events) =~= seq![BootAction::Halt { error }] + rest);
        assert forall|i: int| 0 <= i < run_actions(s, events).len() implies run_actions(
            s,
            events,
        )[i] == (BootAction::Halt { error }) by {
            if i > 0 {
                assert(run_actions(s, events)[i] == rest[i - 1]);
            }
        }
    }
}

/// Law: a register value whose four-bit field is under `MIN_CAPABILITY_LEVEL`
/// stops everything at once; from then on the only action ever requested is
/// the halt diagnostic, whatever events later arrive — in particular, nothing
/// that touches memory.
pub proof fn lemma_insufficient_capability_halts(pfr: u64, later: Seq<BootEvent>)
    requires
        capability_field(pfr) < MIN_CAPABILITY_LEVEL,
    ensures
        ({
            let events = seq![BootEvent::CapabilityRead { pfr }] + later;
            &&& run_state(BootState::OutputReady, events) == BootState::Halted {
                error: FatalError::CapabilityAbsent,
            }
            &&& only_halt_actions(
                run_actions(BootState::OutputReady, events),
                FatalError::CapabilityAbsent,
            )
            &&& no_memory_actions(run_actions(BootState::OutputReady, events))
        }),
{
    let events = seq![BootEvent::CapabilityRead { pfr }] + later;
    let halted = BootState::Halted { error: FatalError::CapabilityAbsent };
    assert(events.first() == BootEvent::CapabilityRead { pfr });
    assert(events.drop_first() =~= later);
    lemma_halt_is_absorbing(FatalError::CapabilityAbsent, later);
    let rest = run_actions(halted, later);
    assert(run_actions(BootState::OutputReady, events) =~= seq![
        BootAction::Halt { error: FatalError::CapabilityAbsent },
    ] + rest);
    assert forall|i: int|
        0 <= i < run_actions(BootState::OutputReady, events).len() implies run_actions(
        BootState::OutputReady,
        events,
    )[i] == (BootAction::Halt { error: FatalError::CapabilityAbsent }) by {
        if i > 0 {
            assert(run_actions(BootState::OutputReady, events)[i] == rest[i - 1]);
        }
    }
}

/// Law: a rejected or ill-formed parse halts the boot with a format failure,
/// and the memory-reservation step is never reached: no memory operation is
/// ever requested afterwards, whatever events later arrive.
pub proof fn lemma_malformed_image_halts(e: BootEvent, later: Seq<BootEvent>)
    requires
        e is ImageRejected || (e matches BootEvent::ImageParsedOk { image } && !image.wf()),
    ensures
        ({
            let events = seq![e] + later;
            &&& run_state(BootState::ImageLocated, events) == BootState::Halted {
                error: FatalError::ImageMalformed,
            }
            &&& only_halt_actions(
                run_actions(BootState::ImageLocated, events),
                FatalError::ImageMalformed,
            )
            &&& no_memory_actions(run_actions(BootState::ImageLocated, events))
        }),
{
    let events = seq![e] + later;
    let halted = BootState::Halted { error: FatalError::ImageMalformed };
    assert(events.first() == e);
    assert(events.drop_first() =~= later);
    lemma_halt_is_absorbing(FatalError::ImageMalformed, later);
    let rest = run_actions(halted, later);
    assert(run_actions(BootState::ImageLocated, events) =~= seq![
        BootAction::Halt { error: FatalError::ImageMalformed },
    ] + rest);
    assert forall|i: int|
        0 <= i < run_actions(BootState::ImageLocated, events).len() implies run_actions(
        BootState::ImageLocated,
        events,
    )[i] == (BootAction::Halt { error: FatalError::ImageMalformed }) by {
        if i > 0 {
            assert(run_actions(BootState::ImageLocated, events)[i] == rest[i - 1]);
        }
    }
}

/// Wherever the machine holds a reserved region, its placement obeys the
/// image: a declared preferred address is the destination, exactly.
pub open spec fn placement_ok(s: BootState) -> bool {
    s matches BootState::MemoryReserved { image, destination } ==> (
    image.preferred_address matches Some(a) ==> destination == a)
}

/// Law: in every run, whenever a region stands reserved for an image that
/// declared a preferred address, the destination is that address — the
/// allocator's suggestion never overrides it.
pub proof fn lemma_placement_invariant(s: BootState, events: Seq<BootEvent>)
    requires
        placement_ok(s),
    ensures
        placement_ok(run_state(s, events)),
    decreases events.len(),
{
    if events.len() == 0 {
    } else {
        match spec_step(s, events.first()) {
            Some(r) => {
                lemma_placement_invariant(r.0, events.drop_first());
            },
            None => {
                lemma_placement_invariant(s, events.drop_first());
            },
        }
    }
}

/// Every request to load the kernel is preceded by a reservation request of
/// exactly the same size.
pub open spec fn load_sizes_reserved(actions: Seq<BootAction>) -> bool {
    forall|j: int|
        0 <= j < actions.len() && actions[j] is LoadKernel ==> exists|i: int|
            0 <= i < j && actions[i] == (BootAction::ReserveMemory {
                size: actions[j]->LoadKernel_size,
            })
}

/// The reservation the current state depends on has already been requested.
pub open spec fn reservation_recorded(s: BootState, actions: Seq<BootAction>) -> bool {
    s matches BootState::ImageParsed { image } ==> actions.contains(
        BootAction::ReserveMemory { size: image.required_size },
    )
}

proof fn lemma_run_load_sizes(s: BootState, events: Seq<BootEvent>, past: Seq<BootAction>)
    requires
        load_sizes_reserved(past),
        reservation_recorded(s, past),
    ensures
        load_sizes_reserved(past + run_actions(s, events)),
    decreases events.len(),
{
    if events.len() == 0 {
        assert(past + run_actions(s, events) =~= past);
    } else {
        let e = events.first();
        match spec_step(s, e) {
            Some(r) => {
                let s2 = r.0;
                let a = r.1;
                let past2 = past + seq![a];
                assert forall|j: int|
                    0 <= j < past2.len() && past2[j] is LoadKernel implies exists|i: int|
                    0 <= i < j && past2[i] == (BootAction::ReserveMemory {
                        size: past2[j]->LoadKernel_size,
                    }) by {
                    if j < past.len() {
                        let i = choose|i: int|
                            0 <= i < j && past[i] == (BootAction::ReserveMemory {
                                size: past[j]->LoadKernel_size,
                            });
                        assert(past2[i] == past[i]);
                    } else {
                        let image = s->ImageParsed_image;
                        assert(past.contains(
                            BootAction::ReserveMemory { size: image.required_size },
                        ));
                        let i = choose|i: int|
                            0 <= i < past.len() && past[i] == (BootAction::ReserveMemory {
                                size: image.required_size,
                            });
                        assert(past2[i] == past[i]);
                    }
                }
                match s2 {
                    BootState::ImageParsed { image } => {
                        assert(a == (BootAction::ReserveMemory { size: image.required_size }));
                        assert(past2[past.len() as int] == a);
                        assert(past2.contains(a));
                    },
                    _ => {},
                }
                lemma_run_load_sizes(s2, events.drop_first(), past2);
                assert(past + run_actions(s, events) =~= past2 + run_actions(
                    s2,
                    events.drop_first(),
                ));
            },
            None => {
                lemma_run_load_sizes(s, events.drop_first(), past);
            },
        }
    }
}

/// Law: in every run of the boot sequence from power-on, a kernel-load
/// request only ever follows a memory-reservation request of exactly the
/// load's size: writing past the reserved region is never asked for.
pub proof fn lemma_reserve_before_load(events: Seq<BootEvent>)
    ensures
        load_sizes_reserved(run_actions(BootState::Start, events)),
{
    lemma_run_load_sizes(BootState::Start, events, Seq::<BootAction>::empty());
    assert(Seq::<BootAction>::empty() + run_actions(BootState::Start, events) =~= run_actions(
        BootState::Start,
        events,
    ));
}

} // verus!
