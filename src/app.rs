use vstd::prelude::*;

use crate::ip::IpInfo;

verus! {

/// What the screen currently shows.
#[derive(Clone, Debug, PartialEq, Eq)]
pub enum AppState {
    /// No result yet; `frame` counts the ticks since the fetch began.
    Loading { frame: u64 },
    /// The last fetch succeeded.
    Loaded { ip_info: IpInfo },
    /// The last fetch failed, with a description of why.
    Error { message: String },
}

/// The outcome of one fetch, tagged with the ticket of the cycle that asked for it.
pub struct Delivery {
    pub ticket: u64,
    pub outcome: Result<IpInfo, String>,
}

/// A step of the driver loop: a tick with what the poll of the fetch channel
/// returned, or a key press.
pub enum Event {
    Tick(Option<Delivery>),
    Key(char),
}

/// The abstract value of an [`App`].
pub struct AppView {
    pub state: AppState,
    pub should_quit: bool,
    /// The ticket of the outstanding fetch, if one is outstanding.
    pub pending: Option<u64>,
    /// The ticket handed out last.
    pub issued: u64,
}

/// One more, held at the largest value instead of wrapping to zero.
pub open spec fn saturating_next(f: u64) -> u64 {
    if f == u64::MAX {
        f
    } else {
        (f + 1) as u64
    }
}

/// The ticket that follows `t`; tickets wrap around.
pub open spec fn next_ticket(t: u64) -> u64 {
    if t == u64::MAX {
        0
    } else {
        (t + 1) as u64
    }
}

/// The state after one tick in which no result is taken.
pub open spec fn advance_frame(st: AppState) -> AppState {
    match st {
        AppState::Loading { frame } => AppState::Loading { frame: saturating_next(frame) },
        _ => st,
    }
}

/// The state that a fetch outcome leads to.
pub open spec fn outcome_state(o: Result<IpInfo, String>) -> AppState {
    match o {
        Ok(info) => AppState::Loaded { ip_info: info },
        Err(message) => AppState::Error { message },
    }
}

impl AppView {
    /// The only outstanding fetch, if any, carries the latest ticket.
    pub open spec fn wf(self) -> bool {
        self.pending is None || self.pending == Some(self.issued)
    }

    /// A new session, right after its first fetch was started.
    pub open spec fn initial() -> AppView {
        AppView {
            state: AppState::Loading { frame: 0 },
            should_quit: false,
            pending: Some(1),
            issued: 1,
        }
    }

    /// Start a fresh fetch cycle, abandoning any outstanding one.
    pub open spec fn restarted(self) -> AppView {
        AppView {
            state: AppState::Loading { frame: 0 },
            should_quit: self.should_quit,
            pending: Some(next_ticket(self.issued)),
            issued: next_ticket(self.issued),
        }
    }

    /// Whether `d` answers the outstanding fetch.
    pub open spec fn accepts(self, d: Delivery) -> bool {
        self.pending == Some(d.ticket)
    }

    /// One tick, given what the poll returned.
    pub open spec fn ticked(self, d: Option<Delivery>) -> AppView {
        if d is Some && self.accepts(d->Some_0) {
            AppView {
                state: outcome_state(d->Some_0.outcome),
                should_quit: self.should_quit,
                pending: None,
                issued: self.issued,
            }
        } else {
            AppView {
                state: advance_frame(self.state),
                should_quit: self.should_quit,
                pending: self.pending,
                issued: self.issued,
            }
        }
    }

    /// A key press: `q` quits, `r` reloads, anything else is ignored.
    pub open spec fn keyed(self, key: char) -> AppView {
        if key == 'q' {
            AppView {
                state: self.state,
                should_quit: true,
                pending: self.pending,
                issued: self.issued,
            }
        } else if key == 'r' {
            self.restarted()
        } else {
            self
        }
    }

    /// One event of the driver loop.
    pub open spec fn stepped(self, e: Event) -> AppView {
        match e {
            Event::Tick(d) => self.ticked(d),
            Event::Key(k) => self.keyed(k),
        }
    }

    /// A run of events, first to last.
    pub open spec fn run(self, es: Seq<Event>) -> AppView
        decreases es.len(),
    {
        if es.len() == 0 {
            self
        } else {
            self.stepped(es[0]).run(es.drop_first())
        }
    }

    /// A run of ticks, first to last.
    pub open spec fn run_ticks(self, ds: Seq<Option<Delivery>>) -> AppView
        decreases ds.len(),
    {
        if ds.len() == 0 {
            self
        } else {
            self.ticked(ds[0]).run_ticks(ds.drop_first())
        }
    }
}

/// A viewing session: what is shown, whether to stop, and which fetch is awaited.
///
/// The fetch itself runs elsewhere. Each fetch cycle gets a ticket; the driver
/// tags the outcome with it, and only the outcome of the awaited cycle is taken.
pub struct App {
    state: AppState,
    should_quit: bool,
    pending: Option<u64>,
    issued: u64,
}

impl View for App {
    type V = AppView;

    closed spec fn view(&self) -> AppView {
        AppView {
            state: self.state,
            should_quit: self.should_quit,
            pending: self.pending,
            issued: self.issued,
        }
    }
}

impl App {
    /// A new session in `Loading { frame: 0 }` with its first fetch outstanding;
    /// the ticket to start it under is [`App::fetch_ticket`].
    pub fn new() -> (r: Self)
        ensures
            r@ == AppView::initial(),
            r@.wf(),
            r@.state == (AppState::Loading { frame: 0 }),
            r@.pending is Some,
            !r@.should_quit,
    {
        let mut app = App {
            state: AppState::Loading { frame: 0 },
            should_quit: false,
            pending: None,
            issued: 0,
        };
        app.start_fetch();
        app
    }

    /// Begin a fresh fetch cycle: back to `Loading { frame: 0 }`, any outstanding
    /// fetch abandoned. Returns the ticket that the new fetch must be tagged with.
    pub fn start_fetch(&mut self) -> (ticket: u64)
        requires
            old(self)@.wf(),
        ensures
            final(self)@ == old(self)@.restarted(),
            final(self)@.wf(),
            final(self)@.pending == Some(ticket),
            old(self)@.pending != Some(ticket),
    {
        let ticket = self.issued.wrapping_add(1);
        self.state = AppState::Loading { frame: 0 };
        self.pending = Some(ticket);
        self.issued = ticket;
        ticket
    }

    /// One tick: advance the loading animation, then take `delivery` if it answers
    /// the outstanding fetch. A delivery for any other ticket is dropped.
    pub fn tick(&mut self, delivery: Option<Delivery>)
        requires
            old(self)@.wf(),
        ensures
            final(self)@ == old(self)@.ticked(delivery),
            final(self)@.wf(),
    {
        let frame = match &self.state {
            AppState::Loading { frame } => Some(*frame),
            _ => None,
        };
        if let Some(f) = frame {
            self.state = AppState::Loading { frame: f.saturating_add(1) };
        }
        if let Some(d) = delivery {
            let awaited = match self.pending {
                Some(t) => t == d.ticket,
                None => false,
            };
            if awaited {
                self.pending = None;
                match d.outcome {
                    Ok(info) => {
                        self.state = AppState::Loaded { ip_info: info };
                    },
                    Err(message) => {
                        self.state = AppState::Error { message };
                    },
                }
            }
        }
    }

    /// A key press: `q` asks to stop, `r` starts a fresh fetch cycle, anything
    /// else is ignored. Returns the ticket of the fetch to start, if one is due.
    pub fn on_key(&mut self, key: char) -> (fetch: Option<u64>)
        requires
            old(self)@.wf(),
        ensures
            final(self)@ == old(self)@.keyed(key),
            final(self)@.wf(),
            fetch == (if key == 'r' { Some(final(self)@.issued) } else { None::<u64> }),
    {
        if key == 'q' {
            self.should_quit = true;
            None
        } else if key == 'r' {
            Some(self.start_fetch())
        } else {
            None
        }
    }

    /// What the screen should show now.
    pub fn state(&self) -> (r: &AppState)
        ensures
            *r == self@.state,
    {
        &self.state
    }

    /// Whether the driver loop should stop.
    pub fn should_quit(&self) -> (r: bool)
        ensures
            r == self@.should_quit,
    {
        self.should_quit
    }

    /// The ticket of the outstanding fetch, if one is outstanding.
    pub fn fetch_ticket(&self) -> (r: Option<u64>)
        ensures
            r == self@.pending,
    {
        self.pending
    }
}

} // verus!
