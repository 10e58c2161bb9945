use crate::random::{random_from_entropy, random_u64, reseed, seeded_random};
use notan::prelude::Random;
use vstd::prelude::*;

verus! {

/// Returns a random number generator seeded with `seed`, or with a random seed when
/// none is given, together with the seed used.
pub fn get_rng(seed: Option<u64>) -> (rng_and_seed: (Random, u64))
    ensures
        seed matches Some(s) ==> rng_and_seed.1 == s,
        rng_and_seed.0 == seeded_random(rng_and_seed.1),
{
    let mut rng = random_from_entropy();
    let used_seed: u64;
    if let Some(seed) = seed {
        used_seed = seed;
    } else {
        used_seed = random_u64(&mut rng);
    }
    reseed(&mut rng, used_seed);
    (rng, used_seed)
}

/// Division of integers rounding toward zero, as Rust's `/` on signed integers does.
pub open spec fn div_toward_zero(a: int, b: int) -> int {
    let q = abs_int(a) / abs_int(b);
    if (a >= 0) == (b > 0) {
        q
    } else {
        -q
    }
}

/// Absolute value of an integer.
pub open spec fn abs_int(a: int) -> int {
    if a < 0 {
        -a
    } else {
        a
    }
}

/// Width of a 1080p screen, in pixels.
pub const RES_1080P_WIDTH: i32 = 1920;

/// How the work size is derived from the screen size.
#[derive(Clone, Copy, Debug, PartialEq, Eq, Structural)]
pub enum ScreenSupersample {
    /// The screen size itself.
    Unchanged,
    /// Twice the screen size, which is below 1080p.
    Doubled { width: i32, height: i32 },
    /// 1.2 times the screen size, which is 1080p or more.
    Scaled,
}

/// The larger of two integers.
pub open spec fn larger(a: i32, b: i32) -> i32 {
    if a >= b {
        a
    } else {
        b
    }
}

/// Whether the device allows supersampling a screen: its largest texture is more than
/// twice the larger screen dimension (in integer division, as the screen size is
/// compared).
pub open spec fn supersampling_fits(max_texture_size: u32, width: i32, height: i32) -> bool {
    div_toward_zero(max_texture_size as i32 as int, larger(width, height) as int) > 2
}

/// Whether a screen is supersampled does not depend on which of its sides is the
/// width: swapping width and height gives the same answer, for every size. For a
/// screen of positive size on a device whose largest texture fits in an `i32`, it
/// is supersampled exactly when that texture is at least three times as large as
/// each of the screen's sides.
pub proof fn lemma_supersampling_fits(max_texture_size: u32, width: i32, height: i32)
    ensures
        supersampling_fits(max_texture_size, width, height) == supersampling_fits(
            max_texture_size,
            height,
            width,
        ),
        width > 0 && height > 0 && max_texture_size <= i32::MAX ==> (supersampling_fits(
            max_texture_size,
            width,
            height,
        ) <==> max_texture_size >= 3 * width && max_texture_size >= 3 * height),
{
    if width > 0 && height > 0 && max_texture_size <= i32::MAX {
        let m = max_texture_size as int;
        let l = larger(width, height) as int;
        assert(max_texture_size as i32 as int == m);
        assert((m / l > 2) <==> (m >= 3 * l)) by (nonlinear_arith)
            requires
                m >= 0,
                l > 0,
        ;
    }
}

/// Decides the "supersampling" of the work size for a screen of `screen_width` x
/// `screen_height` pixels on a device whose largest texture is `max_texture_size`:
/// when the device has room for it, screens below 1080p are doubled and larger ones
/// scaled by 1.2; otherwise the screen size is used as it is.
pub fn screen_supersample(max_texture_size: u32, screen_width: i32, screen_height: i32) -> (choice:
    ScreenSupersample)
    requires
        larger(screen_width, screen_height) != 0,
        !(max_texture_size as i32 == i32::MIN && larger(screen_width, screen_height) == -1),
        supersampling_fits(max_texture_size, screen_width, screen_height) && larger(
            screen_width,
            screen_height,
        ) < RES_1080P_WIDTH ==> {
            &&& i32::MIN <= 2 * screen_width <= i32::MAX
            &&& i32::MIN <= 2 * screen_height <= i32::MAX
        },
    ensures
        !supersampling_fits(max_texture_size, screen_width, screen_height) ==> choice
            == ScreenSupersample::Unchanged,
        supersampling_fits(max_texture_size, screen_width, screen_height) && larger(
            screen_width,
            screen_height,
        ) < RES_1080P_WIDTH ==> choice == (ScreenSupersample::Doubled {
            width: (2 * screen_width) as i32,
            height: (2 * screen_height) as i32,
        }),
        supersampling_fits(max_texture_size, screen_width, screen_height) && larger(
            screen_width,
            screen_height,
        ) >= RES_1080P_WIDTH ==> choice == ScreenSupersample::Scaled,
{
    let max_size = max_texture_size as i32;
    let largest = if screen_width >= screen_height {
        screen_width
    } else {
        screen_height
    };
    let ratio_above_two = if (max_size >= 0) == (largest > 0) {
        let a: u32 = if max_size >= 0 {
            max_size as u32
        } else {
            (-(max_size as i64)) as u32
        };
        let b: u32 = if largest >= 0 {
            largest as u32
        } else {
            (-(largest as i64)) as u32
        };
        a / b > 2
    } else {
        false
    };
    if ratio_above_two {
        if largest < RES_1080P_WIDTH {
            return ScreenSupersample::Doubled { width: screen_width * 2, height: screen_height * 2 };
        }
        return ScreenSupersample::Scaled;
    }
    ScreenSupersample::Unchanged
}

/// The state of the help shown over a sketch: the help panel for mouse users, the
/// touch help, and whether any help has been shown yet, along with the font and
/// texts to draw them with.
pub struct CommonHelpModal<F> {
    pub show_help: bool,
    pub show_touch_help: bool,
    has_shown_help: bool,
    help_font: F,
    pub help_text: String,
    pub touch_help_text: String,
    info_text: Option<String>,
}

impl<F> CommonHelpModal<F> {
    /// Whether the help panel is shown.
    pub closed spec fn showing_help(&self) -> bool {
        self.show_help
    }

    /// Whether the touch help is shown.
    pub closed spec fn showing_touch_help(&self) -> bool {
        self.show_touch_help
    }

    /// The help text.
    pub closed spec fn help(&self) -> String {
        self.help_text
    }

    /// The touch help text.
    pub closed spec fn touch_help(&self) -> String {
        self.touch_help_text
    }

    /// Whether some help has been shown already.
    pub closed spec fn help_was_shown(&self) -> bool {
        self.has_shown_help
    }

    /// The font the help is drawn with.
    pub closed spec fn font(&self) -> F {
        self.help_font
    }

    /// The extra information shown under the help, if any.
    pub closed spec fn info(&self) -> Option<String> {
        self.info_text
    }

    /// A help modal that shows nothing yet.
    pub fn new(help_font: F, help_text: String, touch_help_text: String, info_text: Option<
        String,
    >) -> (modal: Self)
        ensures
            !modal.showing_help(),
            !modal.showing_touch_help(),
            !modal.help_was_shown(),
            modal.font() == help_font,
            modal.help() == help_text,
            modal.touch_help() == touch_help_text,
            modal.info() == info_text,
    {
        CommonHelpModal {
            show_help: false,
            show_touch_help: false,
            has_shown_help: false,
            help_font,
            help_text,
            touch_help_text,
            info_text,
        }
    }

    /// The font the help is drawn with.
    pub fn help_font(&self) -> (font: &F)
        ensures
            *font == self.font(),
    {
        &self.help_font
    }

    /// The extra information shown under the help, if any.
    pub fn info_text(&self) -> (info: &Option<String>)
        ensures
            *info == self.info(),
    {
        &self.info_text
    }

    /// On a mouse click: the first click shows the help; later clicks toggle it.
    pub fn handle_mouse_up(&mut self)
        ensures
            final(self).showing_help() == (!old(self).help_was_shown() || !old(self).showing_help()),
            final(self).help_was_shown(),
            final(self).showing_touch_help() == old(self).showing_touch_help(),
            final(self).font() == old(self).font(),
            final(self).help() == old(self).help(),
            final(self).touch_help() == old(self).touch_help(),
            final(self).info() == old(self).info(),
    {
        if !self.has_shown_help {
            self.show_help = true;
            self.has_shown_help = true;
        } else {
            self.show_help = !self.show_help;
        }
    }

    /// If this is the first touch, set state to show help, and report true.
    /// Otherwise return false, indicating this is not the first touch.
    pub fn handle_first_touch_with_help(&mut self) -> (first: bool)
        ensures
            first == !old(self).help_was_shown(),
            final(self).help_was_shown(),
            final(self).showing_touch_help() == (first || old(self).showing_touch_help()),
            final(self).showing_help() == old(self).showing_help(),
            final(self).font() == old(self).font(),
            final(self).help() == old(self).help(),
            final(self).touch_help() == old(self).touch_help(),
            final(self).info() == old(self).info(),
    {
        if !self.has_shown_help {
            self.show_touch_help = true;
            self.has_shown_help = true;
            return true;
        }
        return false;
    }

    /// Show the touch help if it is hidden, hide it if it is shown.
    pub fn toggle_touch_help(&mut self)
        ensures
            final(self).showing_touch_help() == !old(self).showing_touch_help(),
            final(self).showing_help() == old(self).showing_help(),
            final(self).help_was_shown() == old(self).help_was_shown(),
            final(self).font() == old(self).font(),
            final(self).help() == old(self).help(),
            final(self).touch_help() == old(self).touch_help(),
            final(self).info() == old(self).info(),
    {
        self.show_touch_help = !self.show_touch_help
    }
}

/// The events that decide whether a sketch has the focus of the mouse.
#[derive(Clone, Copy, Debug, PartialEq, Eq, Structural)]
pub enum FocusEvent {
    /// The mouse cursor entered the window.
    MouseEnter { x: i32, y: i32 },
    /// The mouse cursor left the window.
    MouseLeft { x: i32, y: i32 },
    /// Any other event.
    Other,
}

/// Whether the mouse is over the window of the sketch.
pub struct EventsFocus(pub bool);

impl EventsFocus {
    pub fn has_focus(&self) -> (focus: bool)
        ensures
            focus == self.0,
    {
        return self.0;
    }

    /// Follow the mouse: the window gains the focus when the cursor enters it and
    /// loses it when the cursor leaves; other events change nothing.
    pub fn detect(&mut self, evt: &FocusEvent)
        ensures
            final(self).0 == match *evt {
                FocusEvent::MouseEnter { .. } => true,
                FocusEvent::MouseLeft { .. } => false,
                FocusEvent::Other => old(self).0,
            },
    {
        match evt {
            FocusEvent::MouseEnter { .. } => {
                self.0 = true;
            },
            FocusEvent::MouseLeft { .. } => {
                self.0 = false;
            },
            _ => {},
        }
    }
}

} // verus!
