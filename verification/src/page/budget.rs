//! A limit on the bytes that a page may receive.
use vstd::prelude::*;

use crate::page::call::{and_then, call, no_steps, step_views, Page, Step, StepView};
use crate::page::commands::stop_steps;

verus! {

/// Data that has come over the network: its length on the wire, and unpacked.
#[derive(Debug, Clone, Copy)]
pub struct EventDataReceived {
    /// The length on the wire.
    pub encoded_data_length: i64,
    /// The length when unpacked.
    pub data_length: i64,
}

/// A length, or 0 if it is negative.
pub open spec fn at_least_zero(length: i64) -> nat {
    if length > 0 {
        length as nat
    } else {
        0
    }
}

/// What data counts for: its length on the wire, and on request its length when
/// unpacked too.
pub open spec fn counted(event: EventDataReceived, track_all: bool) -> nat {
    at_least_zero(event.encoded_data_length) + if track_all {
        at_least_zero(event.data_length)
    } else {
        0
    }
}

/// Counts the bytes of a page up to a limit.
#[derive(Debug, Clone, Copy)]
pub struct WireBudget {
    /// How many bytes may come.
    pub max_bytes: u64,
    /// How many bytes have come.
    pub total_bytes: u64,
    /// Is the page closed when more come?
    pub close_on_exceed: bool,
    /// Does data count as unpacked too?
    pub track_all: bool,
}

/// The total after data, which goes up to what 64 bits can hold.
pub open spec fn total_after(total: nat, count: nat) -> nat {
    if total + count <= u64::MAX {
        total + count
    } else {
        u64::MAX as nat
    }
}

/// The steps that end a page whose budget is exceeded.
pub open spec fn exceed_steps(close: bool) -> Seq<StepView> {
    if close {
        stop_steps().push(StepView::Send(call("Page.close"@)))
    } else {
        stop_steps()
    }
}

/// The budget after data.
pub open spec fn received(budget: WireBudget, event: EventDataReceived) -> WireBudget {
    WireBudget {
        total_bytes: total_after(
            budget.total_bytes as nat,
            counted(event, budget.track_all),
        ) as u64,
        ..budget
    }
}

/// The steps that end the page, once more bytes have come than may come.
pub open spec fn ending_of(budget: WireBudget) -> Option<Seq<StepView>> {
    if budget.total_bytes > budget.max_bytes {
        Some(exceed_steps(budget.close_on_exceed))
    } else {
        None
    }
}

impl WireBudget {
    /// A budget of which nothing is used.
    pub fn new(max_bytes: u64, close_on_exceed: Option<bool>, sent_and_received: Option<bool>) -> (budget:
        WireBudget)
        ensures
            budget == (WireBudget {
                max_bytes,
                total_bytes: 0,
                close_on_exceed: close_on_exceed == Some(true),
                track_all: sent_and_received == Some(true),
            }),
    {
        WireBudget {
            max_bytes,
            total_bytes: 0,
            close_on_exceed: match close_on_exceed {
                Some(close) => close,
                None => false,
            },
            track_all: match sent_and_received {
                Some(all) => all,
                None => false,
            },
        }
    }

    /// Counts data. The steps that end the page are given once more bytes have come
    /// than may come.
    pub fn on_data_received(&mut self, page: &Page, event: EventDataReceived) -> (ending: Option<
        Vec<Step>,
    >)
        ensures
            *final(self) == received(*old(self), event),
            match ending {
                Some(steps) => ending_of(*final(self)) == Some(step_views(steps@)),
                None => ending_of(*final(self)) is None,
            },
    {
        let encoded: u64 = if event.encoded_data_length > 0 {
            event.encoded_data_length as u64
        } else {
            0
        };
        let data_length: u64 = if self.track_all && event.data_length > 0 {
            event.data_length as u64
        } else {
            0
        };
        self.total_bytes = self.total_bytes.saturating_add(encoded + data_length);
        if self.total_bytes <= self.max_bytes {
            return None;
        }
        let steps = page.force_stop_all();
        if self.close_on_exceed {
            Some(and_then(steps, page.close()))
        } else {
            Some(steps)
        }
    }
}

/// The steps before a budget: the events of the network are turned on if that is
/// asked for.
pub open spec fn start_steps(enable_networking: Option<bool>) -> Seq<StepView> {
    if enable_networking == Some(true) {
        seq![StepView::Send(call("Network.enable"@))]
    } else {
        Seq::empty()
    }
}

impl Page {
    fn budget_steps(&self, enable_networking: Option<bool>) -> (steps: Vec<Step>)
        ensures
            step_views(steps@) == start_steps(enable_networking),
    {
        let enable = match enable_networking {
            Some(enable) => enable,
            None => false,
        };
        if enable {
            let steps = and_then(no_steps(), self.enable_network());
            proof {
                assert(step_views(steps@) =~= start_steps(enable_networking));
            }
            steps
        } else {
            no_steps()
        }
    }

    /// Begins to count the bytes of the page, on the wire and on request unpacked
    /// too. The owner hands each arrival of data to the budget.
    pub fn start_wire_bytes_budget_background(
        &self,
        max_bytes: u64,
        close_on_exceed: Option<bool>,
        enable_networking: Option<bool>,
        sent_and_received: Option<bool>,
    ) -> (begun: (Vec<Step>, WireBudget))
        ensures
            step_views(begun.0@) == start_steps(enable_networking),
            begun.1 == (WireBudget {
                max_bytes,
                total_bytes: 0,
                close_on_exceed: close_on_exceed == Some(true),
                track_all: sent_and_received == Some(true),
            }),
    {
        (
            self.budget_steps(enable_networking),
            WireBudget::new(max_bytes, close_on_exceed, sent_and_received),
        )
    }

    /// Begins to count the bytes of the page on the wire. The owner hands each
    /// arrival of data to the budget.
    pub fn start_wire_bytes_budget(
        &self,
        max_bytes: u64,
        close_on_exceed: Option<bool>,
        enable_networking: Option<bool>,
    ) -> (begun: (Vec<Step>, WireBudget))
        ensures
            step_views(begun.0@) == start_steps(enable_networking),
            begun.1 == (WireBudget {
                max_bytes,
                total_bytes: 0,
                close_on_exceed: close_on_exceed == Some(true),
                track_all: false,
            }),
    {
        (
            self.budget_steps(enable_networking),
            WireBudget::new(max_bytes, close_on_exceed, None),
        )
    }
}

/// What a row of arrivals counts for.
pub open spec fn counted_in_all(events: Seq<EventDataReceived>, track_all: bool) -> nat
    decreases events.len(),
{
    if events.len() == 0 {
        0
    } else {
        counted_in_all(events.drop_last(), track_all) + counted(events.last(), track_all)
    }
}

/// The total after a row of arrivals.
pub open spec fn total_after_all(events: Seq<EventDataReceived>, track_all: bool) -> nat
    decreases events.len(),
{
    if events.len() == 0 {
        0
    } else {
        total_after(
            total_after_all(events.drop_last(), track_all),
            counted(events.last(), track_all),
        )
    }
}

/// A page is ended exactly by the arrival with which more bytes have come than may
/// come, and never if all that 64 bits can hold may come.
pub proof fn a_page_ends_when_its_budget_is_exceeded(
    events: Seq<EventDataReceived>,
    track_all: bool,
    max_bytes: u64,
)
    ensures
        total_after_all(events, track_all) > max_bytes <==> counted_in_all(events, track_all)
            > max_bytes && max_bytes < u64::MAX,
        total_after_all(events, track_all) <= u64::MAX,
    decreases events.len(),
{
    if events.len() > 0 {
        lemma_total_is_capped_count(events, track_all);
    }
}

proof fn lemma_total_is_capped_count(events: Seq<EventDataReceived>, track_all: bool)
    ensures
        total_after_all(events, track_all) == if counted_in_all(events, track_all) <= u64::MAX {
            counted_in_all(events, track_all)
        } else {
            u64::MAX as nat
        },
    decreases events.len(),
{
    if events.len() > 0 {
        lemma_total_is_capped_count(events.drop_last(), track_all);
    }
}

} // verus!
