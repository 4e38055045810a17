//! What holds of every negotiation, whatever the gateway answers.
//!
//! A run is a negotiation fed a sequence of events, one after the other. The
//! statements below count along a run: the states passed through, the first
//! and the last included, each stand for one action handed to the caller.

use crate::addr::Ipv4Address;
use crate::config::Config;
use crate::negotiator::{
    entry_matches, mapping_description, mapping_tag, GatewayActionView, GatewayEvent, Negotiator,
    Outcome, Phase, PortMappingEntry, MAX_MAPPING_ENTRIES,
};
use crate::text::{occurs_at, occurs_in};
use vstd::prelude::*;

verus! {

/// How far a phase is along the order of business. No event ever leads back.
pub open spec fn progress(phase: Phase) -> nat {
    match phase {
        Phase::Discovering => 0,
        Phase::ResolvingAddress => 1,
        Phase::Enumerating { lan, index } => 2,
        Phase::RequestingPreferred { lan } => 3,
        Phase::RequestingAny { lan } => 4,
        Phase::Finished(outcome) => 5,
    }
}

/// The events by which a gateway hands out `rows`, one entry each.
pub open spec fn entry_events(rows: Seq<PortMappingEntry>) -> Seq<GatewayEvent> {
    Seq::new(rows.len(), |i: int| GatewayEvent::Entry(rows[i]))
}

impl Negotiator {
    /// The negotiation after `events`, taken in one by one.
    pub open spec fn run(&self, events: Seq<GatewayEvent>) -> Negotiator
        decreases events.len(),
    {
        if events.len() == 0 {
            *self
        } else {
            self.after(events[0]).run(events.drop_first())
        }
    }

    /// How many states along the run ask for the preferred port.
    pub open spec fn preferred_requests(&self, events: Seq<GatewayEvent>) -> nat
        decreases events.len(),
    {
        let here: nat = if self.phase is RequestingPreferred {
            1
        } else {
            0
        };
        if events.len() == 0 {
            here
        } else {
            here + self.after(events[0]).preferred_requests(events.drop_first())
        }
    }

    /// How many states along the run ask for any port.
    pub open spec fn any_port_requests(&self, events: Seq<GatewayEvent>) -> nat
        decreases events.len(),
    {
        let here: nat = if self.phase is RequestingAny {
            1
        } else {
            0
        };
        if events.len() == 0 {
            here
        } else {
            here + self.after(events[0]).any_port_requests(events.drop_first())
        }
    }

    /// How many table entries the run takes in while it enumerates.
    pub open spec fn entries_read(&self, events: Seq<GatewayEvent>) -> nat
        decreases events.len(),
    {
        if events.len() == 0 {
            0
        } else {
            let here: nat = if self.phase is Enumerating && events[0] is Entry {
                1
            } else {
                0
            };
            here + self.after(events[0]).entries_read(events.drop_first())
        }
    }
}

/// How many answers a negotiation has behind it at least, counted in steps
/// of the order of business: every entry read is one step.
pub open spec fn steps_taken(phase: Phase) -> nat {
    match phase {
        Phase::Discovering => 0,
        Phase::ResolvingAddress => 1,
        Phase::Enumerating { lan, index } => 2 + index as nat,
        Phase::RequestingPreferred { lan } => 2 + MAX_MAPPING_ENTRIES as nat,
        Phase::RequestingAny { lan } => 3 + MAX_MAPPING_ENTRIES as nat,
        Phase::Finished(outcome) => 4 + MAX_MAPPING_ENTRIES as nat,
    }
}

/// Whether none of `events` is the report of a failed entry request.
pub open spec fn without_retries(events: Seq<GatewayEvent>) -> bool {
    forall|i: int| 0 <= i < events.len() ==> !(#[trigger] events[i] is EntryRequestFailed)
}

/// A state asks for the preferred port exactly in the phase of that name,
/// for any port exactly in the phase of that name, and for a table entry
/// exactly while enumerating.
pub proof fn actions_follow_phases(n: Negotiator)
    ensures
        n.spec_next_action() is AddPort <==> n.phase is RequestingPreferred,
        n.spec_next_action() is AddAnyPort <==> n.phase is RequestingAny,
        n.spec_next_action() is GetEntry <==> n.phase is Enumerating,
        n.spec_next_action() is Stop <==> n.phase is Finished,
{
}

/// A negotiation starts well-formed, and no event makes it otherwise: the
/// entry asked for always lies below the limit.
pub proof fn queries_stay_below_limit(config: &Config, n: Negotiator, event: GatewayEvent)
    ensures
        Negotiator::spec_new(config).wf(),
        n.wf() ==> n.after(event).wf(),
        n.wf() ==> (n.spec_next_action() matches GatewayActionView::GetEntry { index } ==> index
            < MAX_MAPPING_ENTRIES),
{
}

/// No event leads back to an earlier phase, no event changes the settings,
/// and every answer to a mapping request leads on to a later phase.
pub proof fn events_only_lead_forward(n: Negotiator, event: GatewayEvent)
    ensures
        progress(n.after(event).phase) >= progress(n.phase),
        n.after(event).timeout_ms == n.timeout_ms,
        n.after(event).preferred_port == n.preferred_port,
        n.after(event).local_port == n.local_port,
        n.phase is RequestingPreferred || n.phase is RequestingAny ==> progress(
            n.after(event).phase,
        ) > progress(n.phase),
{
}

/// Only a failed entry request keeps a negotiation where it is: every other
/// answer takes an unfinished negotiation at least one step further.
pub proof fn every_answer_but_a_retry_advances(n: Negotiator, event: GatewayEvent)
    requires
        n.wf(),
        !(n.phase is Finished),
        !(event is EntryRequestFailed),
    ensures
        steps_taken(n.after(event).phase) > steps_taken(n.phase),
        n.after(event).wf(),
{
}

/// A gateway that answers every entry request brings the negotiation to an
/// end: after as many answers as there are steps, none of them a retry, the
/// negotiation is finished.
pub proof fn negotiation_ends_without_retries(n: Negotiator, events: Seq<GatewayEvent>)
    requires
        n.wf(),
        without_retries(events),
        events.len() + steps_taken(n.phase) >= 4 + MAX_MAPPING_ENTRIES,
    ensures
        n.run(events).phase is Finished,
    decreases events.len(),
{
    if n.phase is Finished {
        finished_stays_finished(n, events);
    } else {
        every_answer_but_a_retry_advances(n, events[0]);
        assert(without_retries(events.drop_first())) by {
            assert forall|i: int| 0 <= i < events.drop_first().len() implies !(
            #[trigger] events.drop_first()[i] is EntryRequestFailed) by {
                assert(events.drop_first()[i] == events[i + 1]);
            }
        }
        negotiation_ends_without_retries(n.after(events[0]), events.drop_first());
    }
}

/// A finished negotiation takes no notice of further events and asks for
/// nothing more.
pub proof fn finished_stays_finished(n: Negotiator, events: Seq<GatewayEvent>)
    requires
        n.phase is Finished,
    ensures
        n.run(events) == n,
        n.preferred_requests(events) == 0,
        n.any_port_requests(events) == 0,
        n.entries_read(events) == 0,
    decreases events.len(),
{
    if events.len() > 0 {
        finished_stays_finished(n.after(events[0]), events.drop_first());
    }
}

/// Along any run whatever, the preferred port is asked for at most once and
/// any port is asked for at most once; and neither is asked for again once
/// the negotiation has moved past it.
pub proof fn each_request_made_at_most_once(n: Negotiator, events: Seq<GatewayEvent>)
    ensures
        n.preferred_requests(events) <= 1,
        n.any_port_requests(events) <= 1,
        progress(n.phase) > 3 ==> n.preferred_requests(events) == 0,
        progress(n.phase) > 4 ==> n.any_port_requests(events) == 0,
    decreases events.len(),
{
    if events.len() > 0 {
        events_only_lead_forward(n, events[0]);
        each_request_made_at_most_once(n.after(events[0]), events.drop_first());
    }
}

/// When the request for the preferred port is refused, the request for any
/// port is made exactly once, and the preferred port is not asked for again:
/// counted from the refused request on, there is one request of each kind.
pub proof fn refusal_falls_back_exactly_once(n: Negotiator, events: Seq<GatewayEvent>)
    requires
        n.phase is RequestingPreferred,
        events.len() > 0,
        events[0] is PortRefused,
    ensures
        n.after(events[0]).phase is RequestingAny,
        n.preferred_requests(events) == 1,
        n.any_port_requests(events) == 1,
{
    let next = n.after(events[0]);
    let rest = events.drop_first();
    each_request_made_at_most_once(next, rest);
    assert(next.any_port_requests(rest) >= 1);
}

/// Along any run from a well-formed state, no more table entries are taken
/// in than the limit allows; from entry `index` on, no more than are left
/// below the limit.
pub proof fn enumeration_is_bounded(n: Negotiator, events: Seq<GatewayEvent>)
    requires
        n.wf(),
    ensures
        n.entries_read(events) <= MAX_MAPPING_ENTRIES,
        n.phase matches Phase::Enumerating { lan, index } ==> n.entries_read(events)
            <= MAX_MAPPING_ENTRIES - index,
        progress(n.phase) > 2 ==> n.entries_read(events) == 0,
    decreases events.len(),
{
    if events.len() > 0 {
        events_only_lead_forward(n, events[0]);
        enumeration_is_bounded(n.after(events[0]), events.drop_first());
    }
}

/// An entry that is recognised while enumerating ends the negotiation at
/// once, with the public port that the entry names.
pub proof fn own_mapping_ends_negotiation(n: Negotiator, entry: PortMappingEntry)
    requires
        n.phase is Enumerating,
        entry_matches(entry, n.phase->Enumerating_lan, n.local_port),
    ensures
        n.after(GatewayEvent::Entry(entry)).phase == Phase::Finished(
            Outcome::AlreadyMapped { external_port: entry.external_port },
        ),
{
}

/// Against a gateway whose table holds this program's mapping within reach,
/// the negotiation ends as already satisfied and asks for no mapping at all.
///
/// `rows` are the table's entries from the one the negotiation waits for
/// onward, handed out in order; `k` is the place of a matching entry among
/// them. The public port reported is that of the first matching entry.
pub proof fn existing_mapping_short_circuits(n: Negotiator, rows: Seq<PortMappingEntry>, k: int)
    requires
        n.phase is Enumerating,
        0 <= k < rows.len(),
        n.phase->Enumerating_index + k < MAX_MAPPING_ENTRIES,
        entry_matches(rows[k], n.phase->Enumerating_lan, n.local_port),
    ensures
        n.preferred_requests(entry_events(rows)) == 0,
        n.any_port_requests(entry_events(rows)) == 0,
        exists|j: int|
            0 <= j <= k && entry_matches(rows[j], n.phase->Enumerating_lan, n.local_port)
                && n.run(entry_events(rows)).phase == Phase::Finished(
                Outcome::AlreadyMapped { external_port: rows[j].external_port },
            ),
    decreases k,
{
    let lan = n.phase->Enumerating_lan;
    let events = entry_events(rows);
    let next = n.after(events[0]);
    let rest = events.drop_first();
    assert(rest =~= entry_events(rows.drop_first()));
    if entry_matches(rows[0], lan, n.local_port) {
        finished_stays_finished(next, rest);
        assert(0 <= 0 <= k && entry_matches(rows[0], lan, n.local_port) && n.run(events).phase
            == Phase::Finished(Outcome::AlreadyMapped { external_port: rows[0].external_port }));
    } else {
        existing_mapping_short_circuits(next, rows.drop_first(), k - 1);
        let j = choose|j: int|
            0 <= j <= k - 1 && entry_matches(rows.drop_first()[j], lan, n.local_port) && next.run(
                rest,
            ).phase == Phase::Finished(
                Outcome::AlreadyMapped { external_port: rows.drop_first()[j].external_port },
            );
        assert(0 <= j + 1 <= k && entry_matches(rows[j + 1], lan, n.local_port) && n.run(
            events,
        ).phase == Phase::Finished(
            Outcome::AlreadyMapped { external_port: rows[j + 1].external_port },
        ));
    }
}

/// The description asked for holds the tag, so a mapping that a gateway
/// stores as it was asked for (description, internal address written out,
/// internal port) is recognised when the table is read the next time.
pub proof fn created_mapping_is_recognised(entry: PortMappingEntry, lan: Ipv4Address, local_port: u16)
    requires
        entry.description@ == mapping_description(),
        entry.internal_client@ == lan.spec_dotted_quad(),
        entry.internal_port == local_port,
    ensures
        occurs_in(mapping_description(), mapping_tag()),
        entry_matches(entry, lan, local_port),
{
    reveal_strlit("meili");
    reveal_strlit("meili port mapping");
    assert(mapping_description().subrange(0, 5) =~= mapping_tag());
    assert(occurs_at(mapping_description(), mapping_tag(), 0));
}

/// Idempotence: a second negotiation against a gateway that stored the first
/// negotiation's mapping as it was asked for creates nothing. Whatever else
/// the table holds before it (`rows`, fewer than the limit), the second run
/// ends as already satisfied without asking for any mapping.
pub proof fn second_run_creates_nothing(
    n: Negotiator,
    rows: Seq<PortMappingEntry>,
    stored: PortMappingEntry,
)
    requires
        n.phase is Enumerating,
        n.phase->Enumerating_index == 0,
        rows.len() < MAX_MAPPING_ENTRIES,
        stored.description@ == mapping_description(),
        stored.internal_client@ == n.phase->Enumerating_lan.spec_dotted_quad(),
        stored.internal_port == n.local_port,
    ensures
        n.preferred_requests(entry_events(rows.push(stored))) == 0,
        n.any_port_requests(entry_events(rows.push(stored))) == 0,
        n.run(entry_events(rows.push(stored))).phase matches Phase::Finished(
            Outcome::AlreadyMapped { external_port },
        ),
{
    created_mapping_is_recognised(stored, n.phase->Enumerating_lan, n.local_port);
    existing_mapping_short_circuits(n, rows.push(stored), rows.len() as int);
}

} // verus!
