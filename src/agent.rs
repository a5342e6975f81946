use vstd::prelude::*;

use crate::blank::{blank_spec, is_blank};
use crate::config::{config_from_fields_spec, AgentConfig, ConfigError, ConfigFields};
use crate::detect::{
    below_spec, difference_spec, fast_downsample, get_difference_ratio2, ratio_below, Fingerprint,
};
use crate::frame::Frame;
use crate::outside::{base64_encode, base64_of, encode_png, format_utc, png_of, utc_text_of};

verus! {

/// A frame of the primary display as captured at one instant.
pub struct Screenshot {
    /// Milliseconds since the Unix epoch.
    pub timestamp_ms: i64,
    /// The platform's identifier of the monitor.
    pub monitor: u32,
    pub image: Frame,
}

/// A frame worth reporting, with its PNG encoding as base64 text.
#[derive(Debug, PartialEq, Eq)]
pub struct ScreenEvent {
    pub t: i64,
    pub image: String,
    pub image_id: String,
}

/// A frame close to the last reported one: it refers to that one's identifier.
#[derive(Debug, PartialEq, Eq)]
pub struct SameScreenEvent {
    pub t: i64,
    pub image_id: String,
}

/// The event that a capture cycle emits.
#[derive(Debug, PartialEq, Eq)]
pub enum ScreenOutput {
    Screen(ScreenEvent),
    Same(SameScreenEvent),
}

/// Why a capture cycle produced no event.
#[derive(Clone, Copy, Debug, PartialEq, Eq, Structural)]
pub enum TaskError {
    /// The image could not be encoded.
    Encoding,
    /// The capture instant lies outside the calendar's range.
    Timestamp,
}

/// The decimal digit `d` as a character.
pub open spec fn digit_char(d: nat) -> char {
    ((d + 48) as u8) as char
}

/// Decimal notation of `n`, without leading zeros.
pub open spec fn decimal(n: nat) -> Seq<char>
    decreases n,
{
    if n < 10 {
        seq![digit_char(n)]
    } else {
        decimal(n / 10).push(digit_char(n % 10))
    }
}

/// The identifier of a reported frame: the UTC date and time, a dash, the monitor.
pub open spec fn image_id_spec(stamp: Seq<char>, monitor: u32) -> Seq<char> {
    stamp + "-"@ + decimal(monitor as nat)
}

/// Whether a fingerprint counts as the same screen as the retained one: there is
/// one, of the same size, and the share of changed pixels is below the
/// configured ratio.
pub open spec fn same_screen(last: Option<Fingerprint>, fp: Fingerprint, ppm: u64) -> bool {
    last matches Some(l) && l.width == fp.width && l.height == fp.height && below_spec(
        difference_spec(l, fp),
        ppm,
    )
}

/// The agent's state is left as it was.
pub open spec fn unchanged(a: ScreenAgent, b: ScreenAgent) -> bool {
    a.config == b.config && a.last_image == b.last_image && a.last_image_id == b.last_image_id
}

/// The pattern of the date and time in a frame identifier.
pub open spec fn stamp_pattern() -> Seq<char> {
    "%Y%m%d-%H%M%S"@
}

/// What a capture cycle on a non-blank frame with fingerprint `fp` returns, and the
/// state it leaves. A frame that counts as the same screen, once a frame has been
/// reported, gives a same-screen event with the last reported identifier, and
/// leaves the state alone. Any other frame is reported in full, with its PNG
/// encoding in base64 and a fresh identifier, and becomes the new baseline; where
/// its time or image cannot be encoded, the cycle fails and the state stays.
pub open spec fn report_spec(
    old: ScreenAgent,
    fp: Fingerprint,
    shot: Screenshot,
    r: Result<Option<ScreenOutput>, TaskError>,
    new: ScreenAgent,
) -> bool {
    if same_screen(old.last_image, fp, old.config.same_screen_ratio_ppm)
        && old.last_image_id is Some {
        &&& unchanged(old, new)
        &&& r matches Ok(Some(ScreenOutput::Same(e)))
        &&& e.t == shot.timestamp_ms
        &&& e.image_id@ == old.last_image_id->Some_0@
    } else {
        match utc_text_of(shot.timestamp_ms, stamp_pattern()) {
            None => r == Err::<Option<ScreenOutput>, TaskError>(TaskError::Timestamp) && unchanged(
                old,
                new,
            ),
            Some(stamp) => match png_of(shot.image.width, shot.image.height, shot.image.rgba@) {
                None => r == Err::<Option<ScreenOutput>, TaskError>(TaskError::Encoding)
                    && unchanged(old, new),
                Some(png) => if png.len() > usize::MAX / 2 {
                    r == Err::<Option<ScreenOutput>, TaskError>(TaskError::Encoding) && unchanged(
                        old,
                        new,
                    )
                } else {
                    &&& r matches Ok(Some(ScreenOutput::Screen(e)))
                    &&& e.t == shot.timestamp_ms
                    &&& e.image@ == base64_of(png)
                    &&& e.image_id@ == image_id_spec(stamp, shot.monitor)
                    &&& new.config == old.config
                    &&& new.last_image matches Some(l)
                    &&& l.width == fp.width && l.height == fp.height && l.luma@ == fp.luma@
                    &&& new.last_image_id matches Some(id)
                    &&& id@ == e.image_id@
                },
            },
        }
    }
}

fn digit_text(d: u32) -> (r: &'static str)
    requires
        d < 10,
    ensures
        r@ == seq![digit_char(d as nat)],
{
    proof {
        reveal_strlit("0");
        reveal_strlit("1");
        reveal_strlit("2");
        reveal_strlit("3");
        reveal_strlit("4");
        reveal_strlit("5");
        reveal_strlit("6");
        reveal_strlit("7");
        reveal_strlit("8");
        reveal_strlit("9");
    }
    if d == 0 {
        "0"
    } else if d == 1 {
        "1"
    } else if d == 2 {
        "2"
    } else if d == 3 {
        "3"
    } else if d == 4 {
        "4"
    } else if d == 5 {
        "5"
    } else if d == 6 {
        "6"
    } else if d == 7 {
        "7"
    } else if d == 8 {
        "8"
    } else {
        "9"
    }
}

/// Appends the decimal notation of `n`.
fn push_decimal(s: &mut String, n: u32)
    ensures
        final(s)@ == old(s)@ + decimal(n as nat),
    decreases n,
{
    if n >= 10 {
        push_decimal(s, n / 10);
    }
    s.append(digit_text(n % 10));
    assert(final(s)@ =~= old(s)@ + decimal(n as nat));
}

/// Builds the identifier of a frame from its formatted capture time and monitor.
pub fn make_image_id(stamp: &str, monitor: u32) -> (r: String)
    ensures
        r@ == image_id_spec(stamp@, monitor),
{
    let mut s = stamp.to_owned();
    s.append("-");
    push_decimal(&mut s, monitor);
    assert(s@ =~= image_id_spec(stamp@, monitor));
    s
}

/// The agent's live configuration and its comparison baseline: the fingerprint
/// of the last frame judged different, and the identifier of the last reported frame.
pub struct ScreenAgent {
    pub config: AgentConfig,
    pub last_image: Option<Fingerprint>,
    pub last_image_id: Option<String>,
}

impl ScreenAgent {
    /// The retained fingerprint, if any, is well formed.
    pub open spec fn wf(&self) -> bool {
        self.last_image matches Some(l) ==> l.wf()
    }

    /// A fresh agent that has seen no frame.
    pub fn new(config: AgentConfig) -> (r: ScreenAgent)
        ensures
            r.config == config,
            r.last_image is None,
            r.last_image_id is None,
            r.wf(),
    {
        ScreenAgent { config, last_image: None, last_image_id: None }
    }

    /// Whether the fingerprint `fp` counts as the same screen as the retained one.
    fn matches_last(&self, fp: &Fingerprint) -> (r: bool)
        requires
            self.wf(),
            fp.wf(),
        ensures
            r == same_screen(self.last_image, *fp, self.config.same_screen_ratio_ppm),
    {
        match &self.last_image {
            None => false,
            Some(last) => last.width == fp.width && last.height == fp.height && ratio_below(
                get_difference_ratio2(last, fp),
                self.config.same_screen_ratio_ppm,
            ),
        }
    }

    /// Change detector: judges the frame against the retained fingerprint and, when
    /// it is different, retains the frame's fingerprint in place of the old one.
    pub fn is_same(&mut self, screenshot: &Screenshot) -> (r: bool)
        requires
            old(self).wf(),
            screenshot.image.wf(),
        ensures
            final(self).wf(),
            final(self).config == old(self).config,
            final(self).last_image_id == old(self).last_image_id,
            forall|fp: Fingerprint|
                #[trigger] fp.is_fingerprint_of(screenshot.image) ==> r == same_screen(
                    old(self).last_image,
                    fp,
                    old(self).config.same_screen_ratio_ppm,
                ),
            r ==> final(self).last_image == old(self).last_image,
            !r ==> (final(self).last_image matches Some(l) && l.is_fingerprint_of(screenshot.image)),
    {
        let fp = fast_downsample(&screenshot.image);
        let same = self.matches_last(&fp);
        proof {
            assert forall|g: Fingerprint| #[trigger]
                g.is_fingerprint_of(screenshot.image) implies same == same_screen(
                old(self).last_image,
                g,
                old(self).config.same_screen_ratio_ppm,
            ) by {
                crate::detect::lemma_fingerprint_unique(fp, g, screenshot.image);
            }
        }
        if !same {
            self.last_image = Some(fp);
        }
        same
    }

    /// One capture cycle on a captured frame: a blank frame gives no event; any
    /// other is judged against the baseline and gives the event that `report_spec`
    /// describes.
    pub fn execute_task(&mut self, shot: &Screenshot) -> (r: Result<Option<ScreenOutput>, TaskError>)
        requires
            old(self).wf(),
            shot.image.wf(),
        ensures
            final(self).wf(),
            final(self).config == old(self).config,
            blank_spec(
                shot.image,
                old(self).config.almost_black_threshold,
                old(self).config.non_blank_threshold,
            ) ==> r == Ok::<Option<ScreenOutput>, TaskError>(None) && unchanged(
                *old(self),
                *final(self),
            ),
            !blank_spec(
                shot.image,
                old(self).config.almost_black_threshold,
                old(self).config.non_blank_threshold,
            ) ==> forall|fp: Fingerprint| #[trigger]
                fp.is_fingerprint_of(shot.image) ==> report_spec(
                    *old(self),
                    fp,
                    *shot,
                    r,
                    *final(self),
                ),
    {
        let cfg = self.config;
        if is_blank(&shot.image, cfg.almost_black_threshold, cfg.non_blank_threshold) {
            return Ok(None);
        }
        let fp = fast_downsample(&shot.image);
        let same = self.matches_last(&fp);
        proof {
            assert forall|g: Fingerprint| #[trigger] g.is_fingerprint_of(shot.image) implies same
                == same_screen(old(self).last_image, g, cfg.same_screen_ratio_ppm) && g.luma@
                == fp.luma@ by {
                crate::detect::lemma_fingerprint_unique(fp, g, shot.image);
            }
        }
        if same {
            if let Some(id) = &self.last_image_id {
                let event = SameScreenEvent { t: shot.timestamp_ms, image_id: id.clone() };
                return Ok(Some(ScreenOutput::Same(event)));
            }
        }
        let stamp = match format_utc(shot.timestamp_ms, "%Y%m%d-%H%M%S") {
            Some(s) => s,
            None => {
                return Err(TaskError::Timestamp);
            },
        };
        let png = match encode_png(shot.image.width, shot.image.height, &shot.image.rgba) {
            Some(p) => p,
            None => {
                return Err(TaskError::Encoding);
            },
        };
        if png.len() > usize::MAX / 2 {
            return Err(TaskError::Encoding);
        }
        let image = base64_encode(&png);
        let image_id = make_image_id(stamp.as_str(), shot.monitor);
        self.last_image = Some(fp);
        self.last_image_id = Some(image_id.clone());
        Ok(Some(ScreenOutput::Screen(ScreenEvent { t: shot.timestamp_ms, image, image_id })))
    }

    /// Replaces the configuration with the one the fields describe; a malformed
    /// field leaves it as it was. The baseline is kept either way.
    pub fn apply_config(&mut self, fields: ConfigFields) -> (r: Result<(), ConfigError>)
        ensures
            final(self).last_image == old(self).last_image,
            final(self).last_image_id == old(self).last_image_id,
            match config_from_fields_spec(fields) {
                Ok(c) => r is Ok && final(self).config == c,
                Err(e) => r == Err::<(), ConfigError>(e) && final(self).config == old(self).config,
            },
    {
        match AgentConfig::from_fields(fields) {
            Ok(c) => {
                self.config = c;
                Ok(())
            },
            Err(e) => Err(e),
        }
    }
}

/// The period that the capture timer was last armed with.
#[derive(Clone, Copy, Debug, PartialEq, Eq, Structural)]
pub struct TimerState {
    pub period: u64,
}

impl TimerState {
    /// A timer armed with the configured interval.
    pub fn new(config: &AgentConfig) -> (r: TimerState)
        ensures
            r.period == config.interval,
    {
        TimerState { period: config.interval }
    }

    /// Decides, after a tick, whether the timer must be armed afresh: it is when
    /// the configured interval differs from the armed period, and the new period
    /// is returned.
    pub fn after_tick(&mut self, config: &AgentConfig) -> (r: Option<u64>)
        ensures
            final(self).period == config.interval,
            old(self).period == config.interval ==> r is None,
            old(self).period != config.interval ==> r == Some(config.interval),
    {
        if self.period != config.interval {
            self.period = config.interval;
            Some(config.interval)
        } else {
            None
        }
    }
}

} // verus!
