use vstd::prelude::*;
use crate::composition::{Stage, StrategySelector};
use crate::paint::{
    PaintPlan, Rect, euc_kr_of, greeting_text, paint, palette_spec, text_area_spec,
};
use crate::theme::{dark_from_reading, reading_is_dark};

verus! {

/// The window's life: events do work only before it is destroyed.
#[derive(Clone, Copy, Debug, PartialEq, Eq, Structural)]
pub enum Phase {
    Created,
    Running,
    Destroyed,
}

/// A notification from the windowing host.
#[derive(Clone, Copy, Debug, PartialEq, Eq, Structural)]
pub enum Event {
    /// The window is being created.
    Create,
    /// The background of the given client area must be painted.
    EraseBackground(Rect),
    /// A system setting changed; carries a fresh reading of the light-theme
    /// preference, `None` where it could not be read.
    SettingChange(Option<u32>),
    /// The window is being destroyed.
    Destroy,
    /// Any other notification.
    Other,
}

/// What the host is to do in answer to an event.
#[derive(Clone, Debug)]
pub enum Response {
    /// Drive this selector over the new window: perform each request, report
    /// its success, until it finishes.
    Compose(StrategySelector),
    /// Draw this plan and report the notification as handled, so that no
    /// default erase follows.
    Paint(PaintPlan),
    /// Set the dark chrome attribute to `dark` and invalidate the whole window.
    Refresh { dark: bool },
    /// End the message loop.
    Quit,
    /// Leave the event to the host's default handling.
    PassThrough,
}

/// The theme and first-paint state of the one window, and its phase.
#[derive(Clone, Copy, Debug, PartialEq, Eq, Structural)]
pub struct WindowController {
    pub is_dark: bool,
    pub first_paint: bool,
    pub phase: Phase,
}

/// The controller's state after it handled `e`.
pub open spec fn after(c: WindowController, e: Event) -> WindowController {
    if c.phase == Phase::Destroyed {
        c
    } else {
        match e {
            Event::Create => if c.phase == Phase::Created {
                WindowController { phase: Phase::Running, ..c }
            } else {
                c
            },
            Event::EraseBackground(_) => WindowController { first_paint: false, ..c },
            Event::SettingChange(reading) => WindowController {
                is_dark: reading_is_dark(reading),
                ..c
            },
            Event::Destroy => WindowController { phase: Phase::Destroyed, ..c },
            Event::Other => c,
        }
    }
}

/// The paint plan for `client` in state `c`.
pub open spec fn plan_fits(c: WindowController, client: Rect, p: PaintPlan) -> bool {
    &&& p.fill == client
    &&& p.palette == palette_spec(c.is_dark)
    &&& p.text_area == text_area_spec(client)
    &&& p.text@ == euc_kr_of(greeting_text())
    &&& p.force_redraw == c.first_paint
}

/// The answer owed to event `e` in state `c`.
pub open spec fn response_fits(c: WindowController, e: Event, r: Response) -> bool {
    if c.phase == Phase::Destroyed {
        r is PassThrough
    } else {
        match e {
            Event::Create => if c.phase == Phase::Created {
                match r {
                    Response::Compose(s) => s == StrategySelector {
                        dark: c.is_dark,
                        stage: Stage::DarkChrome,
                    },
                    _ => false,
                }
            } else {
                r is PassThrough
            },
            Event::EraseBackground(client) => match r {
                Response::Paint(p) => plan_fits(c, client, p),
                _ => false,
            },
            Event::SettingChange(reading) => match r {
                Response::Refresh { dark } => dark == reading_is_dark(reading),
                _ => false,
            },
            Event::Destroy => r is Quit,
            Event::Other => r is PassThrough,
        }
    }
}

impl WindowController {
    /// A controller for a window about to be created, with the theme taken
    /// from a first reading of the preference.
    pub fn new(reading: Option<u32>) -> (c: WindowController)
        ensures
            c.is_dark == reading_is_dark(reading),
            c.first_paint,
            c.phase == Phase::Created,
    {
        WindowController {
            is_dark: dark_from_reading(reading),
            first_paint: true,
            phase: Phase::Created,
        }
    }

    /// Handles one event from the host.
    pub fn handle(&mut self, e: Event) -> (r: Response)
        ensures
            *final(self) == after(*old(self), e),
            response_fits(*old(self), e, r),
    {
        if self.phase == Phase::Destroyed {
            return Response::PassThrough;
        }
        match e {
            Event::Create => {
                if self.phase == Phase::Created {
                    self.phase = Phase::Running;
                    Response::Compose(StrategySelector::new(self.is_dark))
                } else {
                    Response::PassThrough
                }
            },
            Event::EraseBackground(client) => {
                let mut first = self.first_paint;
                let plan = paint(client, self.is_dark, &mut first);
                self.first_paint = first;
                Response::Paint(plan)
            },
            Event::SettingChange(reading) => {
                self.is_dark = dark_from_reading(reading);
                Response::Refresh { dark: self.is_dark }
            },
            Event::Destroy => {
                self.phase = Phase::Destroyed;
                Response::Quit
            },
            Event::Other => Response::PassThrough,
        }
    }
}

/// The state after handling `events` in order.
pub open spec fn after_all(c: WindowController, events: Seq<Event>) -> WindowController
    decreases events.len(),
{
    if events.len() == 0 {
        c
    } else {
        after_all(after(c, events[0]), events.drop_first())
    }
}

/// Whether handling `e` in state `c` asks for the corrective first-paint redraw.
pub open spec fn forces_redraw(c: WindowController, e: Event) -> bool {
    c.phase != Phase::Destroyed && e is EraseBackground && c.first_paint
}

/// How many of `events`, handled in order from `c`, ask for that redraw.
pub open spec fn redraw_count(c: WindowController, events: Seq<Event>) -> nat
    decreases events.len(),
{
    if events.len() == 0 {
        0
    } else {
        (if forces_redraw(c, events[0]) {
            1nat
        } else {
            0nat
        }) + redraw_count(after(c, events[0]), events.drop_first())
    }
}

/// Handling the same settings change twice in a row leaves the same state,
/// asks for the same chrome, and so paints with the same colors, as handling it
/// once.
pub proof fn lemma_setting_change_idempotent(c: WindowController, reading: Option<u32>)
    ensures
        after(after(c, Event::SettingChange(reading)), Event::SettingChange(reading)) == after(
            c,
            Event::SettingChange(reading),
        ),
        palette_spec(
            after(after(c, Event::SettingChange(reading)), Event::SettingChange(reading)).is_dark,
        ) == palette_spec(after(c, Event::SettingChange(reading)).is_dark),
        forall|r1: Response, r2: Response|
            response_fits(c, Event::SettingChange(reading), r1) && response_fits(
                after(c, Event::SettingChange(reading)),
                Event::SettingChange(reading),
                r2,
            ) ==> (r1 matches Response::Refresh { dark: d1 } && r2 matches Response::Refresh {
                dark: d2,
            } && d1 == d2) || (r1 is PassThrough && r2 is PassThrough),
{
}

/// Over any run of events, the first-paint flag is spent at most once: at most
/// one event asks for the corrective redraw, one does exactly when the flag was
/// set and ends up cleared, and a cleared flag is never set again.
pub proof fn lemma_first_paint_once(c: WindowController, events: Seq<Event>)
    ensures
        redraw_count(c, events) <= 1,
        redraw_count(c, events) == 1 <==> (c.first_paint && !after_all(c, events).first_paint),
        !c.first_paint ==> !after_all(c, events).first_paint && redraw_count(c, events) == 0,
    decreases events.len(),
{
    if events.len() > 0 {
        lemma_first_paint_once(after(c, events[0]), events.drop_first());
    }
}

/// Once the flag is set, the first background erase before destruction spends it.
pub proof fn lemma_first_erase_spends(c: WindowController, client: Rect)
    requires
        c.phase != Phase::Destroyed,
        c.first_paint,
    ensures
        forces_redraw(c, Event::EraseBackground(client)),
        !after(c, Event::EraseBackground(client)).first_paint,
{
}

} // verus!
