//! Native window appearance synchronizer, modeled as a state transition.
//!
//! A theme color is an RGB triple with 8-bit channels; out-of-range input
//! is clamped (the documented policy). Applying a color to a window yields
//! the list of native styling actions the host shell must perform — all
//! four compositing layers are set to the same color so that no layer can
//! flash an unstyled default — and records the color as the window's
//! background. On a platform without the native styling hook the action
//! list is empty and the state is unchanged: a silent no-op, never a
//! failure.

use vstd::prelude::*;

verus! {

/// An RGB color with 8-bit channels: the validated form of a theme color
/// whose channels arrive from the front end in `[0, 255]`.
#[derive(Clone, Copy, PartialEq, Eq, Structural, Debug)]
pub struct ThemeColor {
    pub r: u8,
    pub g: u8,
    pub b: u8,
}

/// A channel value clamped into `[0, 255]`.
pub open spec fn clamped_channel(v: i64) -> u8 {
    if v < 0 {
        0u8
    } else if v > 255 {
        255u8
    } else {
        v as u8
    }
}

/// Clamps a channel value into `[0, 255]`: the policy for out-of-range
/// input, which is never rejected and never a panic.
pub fn clamp_channel(v: i64) -> (r: u8)
    ensures
        r == clamped_channel(v),
{
    if v < 0 {
        0
    } else if v > 255 {
        255
    } else {
        v as u8
    }
}

/// The fixed dark default applied once at startup, before the main window
/// becomes interactive.
pub fn startup_theme_color() -> (c: ThemeColor)
    ensures
        c == (ThemeColor { r: 47, g: 47, b: 47 }),
{
    ThemeColor { r: 47, g: 47, b: 47 }
}

/// Whether the platform exposes the native window/webview styling hook.
#[derive(Clone, Copy, PartialEq, Eq, Structural, Debug)]
pub enum StylingSupport {
    /// Native styling calls are available.
    Native,
    /// No styling hook: every styling request is a silent no-op.
    Unsupported,
}

/// One native styling call the host shell must perform. All four exist
/// because the window can flash an unstyled default during resize or load
/// unless every compositing layer agrees on the same color.
#[derive(Clone, Copy, PartialEq, Eq, Structural, Debug)]
pub enum StyleAction {
    /// Set the native window's background color.
    SetWindowBackground(ThemeColor),
    /// Set the web surface's under-page background color.
    SetUnderPageBackground(ThemeColor),
    /// Disable the web surface's own default background drawing.
    DisableSurfaceBackgroundDrawing,
    /// Set the surface's backing layer's background color.
    SetLayerBackground(ThemeColor),
}

/// The modeled appearance of the one main window: the platform capability,
/// fixed at initialization, and the background color last applied through
/// the synchronizer, if any.
#[derive(Clone, Copy, PartialEq, Eq, Structural, Debug)]
pub struct WindowAppearance {
    pub support: StylingSupport,
    pub background: Option<ThemeColor>,
}

impl WindowAppearance {
    /// A window whose appearance has not been styled yet.
    pub fn new(support: StylingSupport) -> (w: WindowAppearance)
        ensures
            w.support == support,
            w.background is None,
    {
        WindowAppearance { support, background: None }
    }

    /// The appearance after one styling request: on a capable platform the
    /// background becomes the color; elsewhere nothing changes.
    pub open spec fn after_apply(self, color: ThemeColor) -> WindowAppearance {
        match self.support {
            StylingSupport::Native => WindowAppearance {
                support: self.support,
                background: Some(color),
            },
            StylingSupport::Unsupported => self,
        }
    }

    /// Applies a theme color: records it as the background and returns the
    /// native styling actions the host shell must perform, in order. On a
    /// platform without the styling hook the list is empty and the state is
    /// unchanged — the request is swallowed, never an error.
    pub fn set_theme_color(&mut self, color: ThemeColor) -> (actions: Vec<StyleAction>)
        ensures
            *final(self) == old(self).after_apply(color),
            old(self).support is Native ==> actions@ =~= seq![
                StyleAction::SetWindowBackground(color),
                StyleAction::SetUnderPageBackground(color),
                StyleAction::DisableSurfaceBackgroundDrawing,
                StyleAction::SetLayerBackground(color),
            ],
            old(self).support is Unsupported ==> actions@ =~= Seq::<StyleAction>::empty(),
    {
        let mut actions: Vec<StyleAction> = Vec::new();
        match self.support {
            StylingSupport::Native => {
                self.background = Some(color);
                actions.push(StyleAction::SetWindowBackground(color));
                actions.push(StyleAction::SetUnderPageBackground(color));
                actions.push(StyleAction::DisableSurfaceBackgroundDrawing);
                actions.push(StyleAction::SetLayerBackground(color));
            },
            StylingSupport::Unsupported => {},
        }
        actions
    }
}

/// Law: styling is idempotent — applying the same color twice in
/// succession leaves the window in exactly the state one application does.
pub proof fn lemma_set_theme_color_idempotent(w: WindowAppearance, color: ThemeColor)
    ensures
        w.after_apply(color).after_apply(color) == w.after_apply(color),
{
}

} // verus!
