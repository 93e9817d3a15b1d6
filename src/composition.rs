use vstd::prelude::*;
use crate::paint::{Color, colorref_of};

verus! {

/// The system backdrop materials a window can ask for.
#[derive(Clone, Copy, Debug, PartialEq, Eq, Structural)]
pub enum Backdrop {
    Auto,
    NoBackdrop,
    MainWindow,
    TransientWindow,
    TabbedWindow,
}

pub open spec fn backdrop_value_spec(b: Backdrop) -> u32 {
    match b {
        Backdrop::Auto => 0,
        Backdrop::NoBackdrop => 1,
        Backdrop::MainWindow => 2,
        Backdrop::TransientWindow => 3,
        Backdrop::TabbedWindow => 4,
    }
}

impl Backdrop {
    /// The value of the system-backdrop window attribute for this material.
    pub fn value(&self) -> (v: u32)
        ensures
            v == backdrop_value_spec(*self),
    {
        match self {
            Backdrop::Auto => 0,
            Backdrop::NoBackdrop => 1,
            Backdrop::MainWindow => 2,
            Backdrop::TransientWindow => 3,
            Backdrop::TabbedWindow => 4,
        }
    }
}

/// Accent state that blurs what lies behind the window.
pub const ACCENT_ENABLE_BLURBEHIND: u32 = 3;

/// Window composition attribute that takes an accent policy.
pub const WCA_ACCENT_POLICY: u32 = 19;

/// Opacity of the tint laid over the legacy blur.
pub const BLUR_TINT_ALPHA: u8 = 0x40;

/// A tint color with its opacity, packed as `alpha << 24 | 0xBBGGRR`.
pub open spec fn gradient_spec(alpha: u8, tint: Color) -> nat {
    alpha as nat * 0x1000000 + colorref_of(tint)
}

/// Packs a tint color and its opacity for an accent policy.
pub fn gradient_color(alpha: u8, tint: Color) -> (v: u32)
    ensures
        v == gradient_spec(alpha, tint),
{
    (alpha as u32) * 0x1000000u32 + tint.to_colorref()
}

/// The legacy accent-policy payload.
#[derive(Clone, Copy, Debug, PartialEq, Eq, Structural)]
pub struct AccentPolicy {
    pub accent_state: u32,
    pub accent_flags: u32,
    pub gradient_color: u32,
    pub animation_id: u32,
}

/// The grey the legacy blur is tinted with.
pub open spec fn blur_tint() -> Color {
    Color { r: 0x2f, g: 0x2f, b: 0x2f }
}

/// Blur-behind, no flags, a translucent grey tint, no animation.
pub open spec fn blur_policy_spec() -> AccentPolicy {
    AccentPolicy {
        accent_state: ACCENT_ENABLE_BLURBEHIND,
        accent_flags: 0,
        gradient_color: gradient_spec(BLUR_TINT_ALPHA, blur_tint()) as u32,
        animation_id: 0,
    }
}

/// The accent policy applied when falling back to the legacy blur.
pub fn blur_policy() -> (p: AccentPolicy)
    ensures
        p == blur_policy_spec(),
{
    AccentPolicy {
        accent_state: ACCENT_ENABLE_BLURBEHIND,
        accent_flags: 0,
        gradient_color: gradient_color(BLUR_TINT_ALPHA, Color::new(0x2f, 0x2f, 0x2f)),
        animation_id: 0,
    }
}

/// The four bytes of `v`, least significant first.
pub open spec fn le_bytes(v: u32) -> Seq<u8> {
    seq![
        (v % 0x100) as u8,
        (v / 0x100 % 0x100) as u8,
        (v / 0x10000 % 0x100) as u8,
        (v / 0x1000000) as u8,
    ]
}

/// The accent policy in the layout the composition call reads: four 32-bit
/// fields in declaration order, little-endian.
pub open spec fn policy_bytes_spec(p: AccentPolicy) -> Seq<u8> {
    le_bytes(p.accent_state) + le_bytes(p.accent_flags) + le_bytes(p.gradient_color)
        + le_bytes(p.animation_id)
}

fn push_le(out: &mut Vec<u8>, v: u32)
    ensures
        final(out)@ == old(out)@ + le_bytes(v),
{
    out.push((v % 0x100) as u8);
    out.push((v / 0x100 % 0x100) as u8);
    out.push((v / 0x10000 % 0x100) as u8);
    out.push((v / 0x1000000) as u8);
    assert(out@ =~= old(out)@ + le_bytes(v));
}

impl AccentPolicy {
    /// Serializes the policy for the composition call.
    pub fn to_bytes(&self) -> (r: Vec<u8>)
        ensures
            r@ == policy_bytes_spec(*self),
            r@.len() == 16,
    {
        let mut out: Vec<u8> = Vec::new();
        push_le(&mut out, self.accent_state);
        push_le(&mut out, self.accent_flags);
        push_le(&mut out, self.gradient_color);
        push_le(&mut out, self.animation_id);
        assert(out@ =~= policy_bytes_spec(*self));
        out
    }
}

/// What window creation achieved in the way of translucency.
#[derive(Clone, Copy, Debug, PartialEq, Eq, Structural)]
pub enum CompositionOutcome {
    SystemBackdropApplied,
    LegacyBlurApplied,
    Failed,
}

/// Where the selector stands: each stage but `Done` waits for the host to
/// perform that stage's request and report whether it succeeded.
#[derive(Clone, Copy, Debug, PartialEq, Eq, Structural)]
pub enum Stage {
    DarkChrome,
    SystemBackdrop,
    BlurBehind,
    ExtendFrame,
    LegacyBlur,
    Done(CompositionOutcome),
}

/// Frame margins; all `-1` extends the frame over the whole client area.
#[derive(Clone, Copy, Debug, PartialEq, Eq, Structural)]
pub struct Margins {
    pub left: i32,
    pub right: i32,
    pub top: i32,
    pub bottom: i32,
}

pub open spec fn sheet_margins() -> Margins {
    Margins { left: -1i32, right: -1i32, top: -1i32, bottom: -1i32 }
}

/// An operation the host performs on the window for the selector.
#[derive(Clone, Copy, Debug, PartialEq, Eq, Structural)]
pub enum Request {
    /// Set the dark window chrome attribute; reply whether the call succeeded.
    SetDarkChrome(bool),
    /// Set the system backdrop attribute; reply whether the system accepted it.
    SetSystemBackdrop(Backdrop),
    /// Enable blur-behind over the whole window; reply whether it succeeded.
    EnableBlurBehind,
    /// Extend the frame into the client area; reply whether it succeeded.
    ExtendFrame(Margins),
    /// Resolve the window composition capability by name and, if present,
    /// apply the accent policy through the given attribute; reply whether the
    /// capability was present.
    ApplyAccentPolicy { attribute: u32, policy: AccentPolicy },
    /// Nothing more to do.
    Finish(CompositionOutcome),
}

/// The next stage after the host replied `ok` to the current stage's request.
/// The dark-chrome reply is not looked at: that step never decides the outcome.
pub open spec fn next_stage(stage: Stage, ok: bool) -> Stage {
    match stage {
        Stage::DarkChrome => Stage::SystemBackdrop,
        Stage::SystemBackdrop => if ok {
            Stage::BlurBehind
        } else {
            Stage::ExtendFrame
        },
        Stage::BlurBehind => Stage::Done(CompositionOutcome::SystemBackdropApplied),
        Stage::ExtendFrame => Stage::LegacyBlur,
        Stage::LegacyBlur => if ok {
            Stage::Done(CompositionOutcome::LegacyBlurApplied)
        } else {
            Stage::Done(CompositionOutcome::Failed)
        },
        Stage::Done(o) => Stage::Done(o),
    }
}

/// The request a stage makes of the host.
pub open spec fn request_of(stage: Stage, dark: bool) -> Request {
    match stage {
        Stage::DarkChrome => Request::SetDarkChrome(dark),
        Stage::SystemBackdrop => Request::SetSystemBackdrop(Backdrop::TransientWindow),
        Stage::BlurBehind => Request::EnableBlurBehind,
        Stage::ExtendFrame => Request::ExtendFrame(sheet_margins()),
        Stage::LegacyBlur => Request::ApplyAccentPolicy {
            attribute: WCA_ACCENT_POLICY,
            policy: blur_policy_spec(),
        },
        Stage::Done(o) => Request::Finish(o),
    }
}

/// The stage reached from `stage` after the host's replies, in order.
pub open spec fn run(stage: Stage, replies: Seq<bool>) -> Stage
    decreases replies.len(),
{
    if replies.len() == 0 {
        stage
    } else {
        run(next_stage(stage, replies[0]), replies.drop_first())
    }
}

/// The outcome as a function of the replies that matter.
pub open spec fn outcome_spec(backdrop_accepted: bool, legacy_present: bool) -> CompositionOutcome {
    if backdrop_accepted {
        CompositionOutcome::SystemBackdropApplied
    } else if legacy_present {
        CompositionOutcome::LegacyBlurApplied
    } else {
        CompositionOutcome::Failed
    }
}

/// Chooses the translucency treatment of a new window by probing, in order,
/// the system backdrop and then the legacy blur, after setting the chrome.
#[derive(Clone, Copy, Debug, PartialEq, Eq, Structural)]
pub struct StrategySelector {
    pub dark: bool,
    pub stage: Stage,
}

impl StrategySelector {
    /// A selector for a window whose chrome follows `dark`.
    pub fn new(dark: bool) -> (s: StrategySelector)
        ensures
            s.dark == dark,
            s.stage == Stage::DarkChrome,
    {
        StrategySelector { dark, stage: Stage::DarkChrome }
    }

    /// The request of the current stage.
    pub fn request(&self) -> (r: Request)
        ensures
            r == request_of(self.stage, self.dark),
    {
        match self.stage {
            Stage::DarkChrome => Request::SetDarkChrome(self.dark),
            Stage::SystemBackdrop => Request::SetSystemBackdrop(Backdrop::TransientWindow),
            Stage::BlurBehind => Request::EnableBlurBehind,
            Stage::ExtendFrame => Request::ExtendFrame(
                Margins { left: -1, right: -1, top: -1, bottom: -1 },
            ),
            Stage::LegacyBlur => Request::ApplyAccentPolicy {
                attribute: WCA_ACCENT_POLICY,
                policy: blur_policy(),
            },
            Stage::Done(o) => Request::Finish(o),
        }
    }

    /// Takes the host's reply to the current request and returns the next one.
    pub fn advance(&mut self, ok: bool) -> (r: Request)
        ensures
            final(self).dark == old(self).dark,
            final(self).stage == next_stage(old(self).stage, ok),
            r == request_of(final(self).stage, final(self).dark),
    {
        self.stage = match self.stage {
            Stage::DarkChrome => Stage::SystemBackdrop,
            Stage::SystemBackdrop => if ok {
                Stage::BlurBehind
            } else {
                Stage::ExtendFrame
            },
            Stage::BlurBehind => Stage::Done(CompositionOutcome::SystemBackdropApplied),
            Stage::ExtendFrame => Stage::LegacyBlur,
            Stage::LegacyBlur => if ok {
                Stage::Done(CompositionOutcome::LegacyBlurApplied)
            } else {
                Stage::Done(CompositionOutcome::Failed)
            },
            Stage::Done(o) => Stage::Done(o),
        };
        self.request()
    }

    /// The outcome, once the selector is done.
    pub fn outcome(&self) -> (r: Option<CompositionOutcome>)
        ensures
            r == (match self.stage {
                Stage::Done(o) => Some(o),
                _ => None,
            }),
    {
        match self.stage {
            Stage::Done(o) => Some(o),
            _ => None,
        }
    }
}

/// From a fresh selector, three replies finish on an accepted backdrop and four
/// otherwise; the outcome is the backdrop if the system accepted it, else the
/// legacy blur if the capability was present, else a failure. The reply to the
/// dark-chrome request plays no part in it, so a failed chrome step never makes
/// the selector fail.
pub proof fn lemma_outcome(replies: Seq<bool>)
    requires
        replies.len() >= 4,
    ensures
        replies[1] ==> run(Stage::DarkChrome, replies.take(3)) == Stage::Done(
            CompositionOutcome::SystemBackdropApplied,
        ),
        run(Stage::DarkChrome, replies) == Stage::Done(outcome_spec(replies[1], replies[3])),
        run(Stage::DarkChrome, replies) == run(
            Stage::DarkChrome,
            replies.update(0, !replies[0]),
        ),
        run(Stage::DarkChrome, replies) == Stage::Done(CompositionOutcome::Failed) ==> !replies[1]
            && !replies[3],
{
    let r1 = replies.drop_first();
    let r2 = r1.drop_first();
    let r3 = r2.drop_first();
    let r4 = r3.drop_first();
    let third_stage = next_stage(Stage::SystemBackdrop, replies[1]);
    assert(run(Stage::DarkChrome, replies) == run(Stage::SystemBackdrop, r1));
    assert(run(Stage::SystemBackdrop, r1) == run(third_stage, r2));
    assert(run(third_stage, r2) == run(next_stage(third_stage, replies[2]), r3));
    if replies[1] {
        lemma_done_stays(r3, CompositionOutcome::SystemBackdropApplied);
        let t = replies.take(3);
        let t1 = t.drop_first();
        let t2 = t1.drop_first();
        let t3 = t2.drop_first();
        assert(t1[0] == replies[1]);
        assert(t3.len() == 0);
        assert(run(Stage::DarkChrome, t) == run(Stage::SystemBackdrop, t1));
        assert(run(Stage::SystemBackdrop, t1) == run(third_stage, t2));
        assert(run(third_stage, t2) == run(next_stage(third_stage, t2[0]), t3));
    } else {
        assert(r3[0] == replies[3]);
        assert(run(Stage::LegacyBlur, r3) == run(next_stage(Stage::LegacyBlur, replies[3]), r4));
        lemma_done_stays(r4, outcome_spec(false, replies[3]));
    }
    let flipped = replies.update(0, !replies[0]);
    assert(flipped.drop_first() =~= r1);
    assert(run(Stage::DarkChrome, flipped) == run(Stage::SystemBackdrop, flipped.drop_first()));
}

/// A finished selector stays finished with its outcome.
pub proof fn lemma_done_stays(replies: Seq<bool>, o: CompositionOutcome)
    ensures
        run(Stage::Done(o), replies) == Stage::Done(o),
    decreases replies.len(),
{
    if replies.len() > 0 {
        lemma_done_stays(replies.drop_first(), o);
    }
}

} // verus!
