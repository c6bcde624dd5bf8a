//! The day loop's decisions: where in the image sequence an instant falls,
//! and when the daylight window has to be fetched anew.
//!
//! Nothing here reads a clock, sleeps or shows an image. The loop that does
//! hands each instant to [`Scheduler::tick`] and carries out what comes back.

use vstd::prelude::*;
use crate::clock::{window_fault, Instant, SolarWindow};
use crate::failure::ConfigurationError;
use crate::ratio::Ratio;

verus! {

/// A place between two neighbouring images of the sequence.
#[derive(Clone, Copy, Debug, PartialEq, Eq, Structural)]
pub struct BlendPosition {
    /// Index of the lower of the two images.
    pub cursor_index: usize,
    /// Weight of the upper image.
    pub mix_ratio: Ratio,
}

/// What to show at an instant.
#[derive(Clone, Copy, Debug, PartialEq, Eq, Structural)]
pub enum Selection {
    /// The image at this index, as it is.
    Verbatim(usize),
    /// A blend of two neighbouring images.
    Blend(BlendPosition),
}

impl Selection {
    /// Every index named lies in a sequence of `len` images, and a blend has
    /// an upper neighbour and a ratio in `[0, 1]`.
    pub open spec fn fits(self, len: int) -> bool {
        match self {
            Selection::Verbatim(index) => index < len,
            Selection::Blend(at) => at.cursor_index + 1 < len && at.mix_ratio.in_unit_interval(),
        }
    }
}

/// Numerator of the normalized cursor `(len - 1) * elapsed / day_length`,
/// which maps sunrise to index 0 and sunset to the last index.
pub open spec fn cursor_numerator(len: int, window: SolarWindow, now: Instant) -> int {
    (len - 1) * (now.secs - window.sunrise().secs)
}

/// What a sequence of `len` images shows at `now` under `window`.
///
/// With the cursor `c = (len - 1) * elapsed / day_length`: the first image
/// where `c < 0`; the last image where the whole part of `c` is past
/// `len - 2`, the last index that has an upper neighbour; in between, the
/// blend at the whole part of `c`, with the fractional part of `c` as the
/// ratio. The fractional part is kept exact, as remainder over day length.
pub open spec fn selection_at(len: int, window: SolarWindow, now: Instant) -> Selection {
    let numerator = cursor_numerator(len, window, now);
    let day_length = window.day_length();
    if numerator < 0 {
        Selection::Verbatim(0)
    } else if numerator / day_length > len - 2 {
        Selection::Verbatim((len - 1) as usize)
    } else {
        Selection::Blend(
            BlendPosition {
                cursor_index: (numerator / day_length) as usize,
                mix_ratio: Ratio {
                    num: (numerator % day_length) as u64,
                    den: day_length as u64,
                },
            },
        )
    }
}

/// Sign, quotient and remainder of `steps * elapsed` over `day_length`.
proof fn cursor_facts(steps: int, elapsed: int, day_length: int)
    by (nonlinear_arith)
    requires
        0 <= steps,
        0 < day_length,
    ensures
        elapsed < 0 && steps > 0 ==> steps * elapsed < 0,
        steps == 0 ==> steps * elapsed == 0 && (steps * elapsed) / day_length == 0,
        elapsed >= 0 ==> steps * elapsed >= 0,
        elapsed >= day_length ==> (steps * elapsed) / day_length >= steps,
        0 <= elapsed < day_length && steps > 0 ==> 0 <= (steps * elapsed) / day_length < steps,
        0 <= (steps * elapsed) % day_length < day_length,
        0 <= elapsed < day_length <= 86_400 && steps <= u64::MAX ==> steps * elapsed
            <= u64::MAX * 86_400,
{
}

/// Where `now` falls in a sequence of `sequence_len` images.
pub fn locate(sequence_len: usize, window: &SolarWindow, now: Instant) -> (shown: Selection)
    requires
        sequence_len >= 1,
        window.wf(),
    ensures
        shown == selection_at(sequence_len as int, *window, now),
        shown.fits(sequence_len as int),
        now.secs < window.sunrise().secs ==> shown == Selection::Verbatim(0),
        now.secs >= window.sunset().secs ==> shown == Selection::Verbatim(
            (sequence_len - 1) as usize,
        ),
{
    let sunrise: i128 = window.sunrise().secs as i128;
    let day_length: i128 = window.sunset().secs as i128 - sunrise;
    let elapsed: i128 = now.secs as i128 - sunrise;
    let steps: usize = sequence_len - 1;
    proof {
        cursor_facts(steps as int, elapsed as int, day_length as int);
    }
    if elapsed < 0 || steps == 0 {
        return Selection::Verbatim(0);
    }
    if elapsed >= day_length {
        return Selection::Verbatim(steps);
    }
    let numerator: u128 = steps as u128 * elapsed as u128;
    let span: u128 = day_length as u128;
    let whole: u128 = numerator / span;
    let part: u128 = numerator % span;
    Selection::Blend(
        BlendPosition {
            cursor_index: whole as usize,
            mix_ratio: Ratio { num: part as u64, den: span as u64 },
        },
    )
}

/// Before sunrise the first image is shown, whatever the sequence's length.
pub proof fn first_image_before_sunrise(len: int, window: SolarWindow, now: Instant)
    requires
        len >= 1,
        window.wf(),
        now.secs < window.sunrise().secs,
    ensures
        selection_at(len, window, now) == Selection::Verbatim(0),
{
    cursor_facts(len - 1, now.secs - window.sunrise().secs, window.day_length());
}

/// From sunset on the last image is shown.
pub proof fn last_image_from_sunset(len: int, window: SolarWindow, now: Instant)
    requires
        1 <= len <= usize::MAX,
        window.wf(),
        now.secs >= window.sunset().secs,
    ensures
        selection_at(len, window, now) == Selection::Verbatim((len - 1) as usize),
{
    cursor_facts(len - 1, now.secs - window.sunrise().secs, window.day_length());
}

/// A sequence of one image shows that image at every instant and never
/// blends.
pub proof fn single_image_is_always_shown(window: SolarWindow, now: Instant)
    requires
        window.wf(),
    ensures
        selection_at(1, window, now) == Selection::Verbatim(0),
{
    cursor_facts(0, now.secs - window.sunrise().secs, window.day_length());
}

/// Whatever the instant, the selection stays inside the sequence: a verbatim
/// index exists, a blend has both its images, and its ratio lies in `[0, 1]`.
pub proof fn selection_stays_in_bounds(len: int, window: SolarWindow, now: Instant)
    requires
        1 <= len <= usize::MAX,
        window.wf(),
    ensures
        selection_at(len, window, now).fits(len),
{
    cursor_facts(len - 1, now.secs - window.sunrise().secs, window.day_length());
}

/// The two states of the day loop.
#[derive(Clone, Copy, Debug, PartialEq, Eq, Structural)]
pub enum SchedulerState {
    /// No daylight window is held for the current day.
    AwaitingDay,
    /// A window is held; instants of its day are mapped to selections.
    Active(SolarWindow),
}

/// What the loop has to do next.
#[derive(Clone, Copy, Debug, PartialEq, Eq, Structural)]
pub enum Directive {
    /// Ask the solar clock for sunrise and sunset of this calendar day, hand
    /// them to [`Scheduler::install`], and tick again.
    FetchSolarWindow { day: i64 },
    /// Show this selection, and sleep until the next poll.
    Show(Selection),
}

/// The day loop's state: the length of the frozen image sequence and the
/// daylight window in force, if any.
#[derive(Clone, Copy, Debug, PartialEq, Eq, Structural)]
pub struct Scheduler {
    sequence_len: usize,
    state: SchedulerState,
}

impl Scheduler {
    /// Number of images in the sequence.
    pub closed spec fn spec_sequence_len(&self) -> usize {
        self.sequence_len
    }

    /// The state the loop is in.
    pub closed spec fn spec_state(&self) -> SchedulerState {
        self.state
    }

    /// The sequence is not empty and a held window is well formed.
    pub open spec fn wf(&self) -> bool {
        &&& self.sequence_len() >= 1
        &&& self.state() matches SchedulerState::Active(w) ==> w.wf()
    }

    /// A window is held and it is the one of `now`'s calendar day.
    pub open spec fn holds_window_for(&self, now: Instant) -> bool {
        self.state() matches SchedulerState::Active(w) && w.day() == now.spec_day()
    }

    /// Number of images in the sequence.
    #[verifier::when_used_as_spec(spec_sequence_len)]
    pub fn sequence_len(&self) -> (len: usize)
        ensures
            len == self.sequence_len(),
    {
        self.sequence_len
    }

    /// The state the loop is in.
    #[verifier::when_used_as_spec(spec_state)]
    pub fn state(&self) -> (state: SchedulerState)
        ensures
            state == self.state(),
    {
        self.state
    }

    /// A scheduler for a sequence of `sequence_len` images, awaiting its first
    /// daylight window. An empty sequence is refused.
    pub fn new(sequence_len: usize) -> (made: Result<Scheduler, ConfigurationError>)
        ensures
            match made {
                Ok(s) => {
                    &&& sequence_len >= 1
                    &&& s.wf()
                    &&& s.sequence_len() == sequence_len
                    &&& s.state() == SchedulerState::AwaitingDay
                },
                Err(e) => sequence_len == 0 && e == ConfigurationError::EmptySequence,
            },
    {
        if sequence_len == 0 {
            Err(ConfigurationError::EmptySequence)
        } else {
            Ok(Scheduler { sequence_len, state: SchedulerState::AwaitingDay })
        }
    }

    /// One poll tick at instant `now`.
    ///
    /// Where the held window is the one of `now`'s calendar day, the
    /// selection for `now` is due. In every other case, also at the first
    /// tick after midnight, no position is computed: the window is dropped and
    /// the one of `now`'s day is asked for.
    pub fn tick(&mut self, now: Instant) -> (next: Directive)
        requires
            old(self).wf(),
        ensures
            final(self).wf(),
            final(self).sequence_len() == old(self).sequence_len(),
            old(self).holds_window_for(now) ==> {
                &&& final(self).state() == old(self).state()
                &&& old(self).state() matches SchedulerState::Active(w)
                &&& next == Directive::Show(
                    selection_at(old(self).sequence_len() as int, w, now),
                )
                &&& next->Show_0.fits(old(self).sequence_len() as int)
                &&& now.secs < w.sunrise().secs ==> next == Directive::Show(Selection::Verbatim(0))
                &&& now.secs >= w.sunset().secs ==> next == Directive::Show(
                    Selection::Verbatim((old(self).sequence_len() - 1) as usize),
                )
            },
            !old(self).holds_window_for(now) ==> {
                &&& final(self).state() == SchedulerState::AwaitingDay
                &&& next == Directive::FetchSolarWindow { day: now.spec_day() as i64 }
            },
    {
        let today: i64 = now.day();
        match self.state {
            SchedulerState::Active(window) => {
                if window.day() == today {
                    return Directive::Show(locate(self.sequence_len, &window, now));
                }
            },
            SchedulerState::AwaitingDay => {},
        }
        self.state = SchedulerState::AwaitingDay;
        Directive::FetchSolarWindow { day: today }
    }

    /// Takes in the sunrise and sunset that the solar clock reported for
    /// calendar day `day`, corrected to that day as
    /// [`SolarWindow::for_day`] does. On a fault no window is held.
    pub fn install(&mut self, day: i64, sunrise: Instant, sunset: Instant) -> (done: Result<
        (),
        ConfigurationError,
    >)
        requires
            old(self).wf(),
        ensures
            final(self).wf(),
            final(self).sequence_len() == old(self).sequence_len(),
            match done {
                Ok(_) => {
                    &&& window_fault(day as int, sunrise, sunset) is None
                    &&& final(self).state() matches SchedulerState::Active(w)
                    &&& w.day() == day
                    &&& w.sunrise().secs == sunrise.moved_to_day(day as int)
                    &&& w.sunset().secs == sunset.moved_to_day(day as int)
                },
                Err(e) => {
                    &&& window_fault(day as int, sunrise, sunset) == Some(e)
                    &&& final(self).state() == SchedulerState::AwaitingDay
                },
            },
    {
        match SolarWindow::for_day(day, sunrise, sunset) {
            Ok(window) => {
                self.state = SchedulerState::Active(window);
                Ok(())
            },
            Err(e) => {
                self.state = SchedulerState::AwaitingDay;
                Err(e)
            },
        }
    }
}

} // verus!
