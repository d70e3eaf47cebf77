use vstd::prelude::*;

verus! {

/// How many once-a-second samples the frame-rate history keeps.
pub const FPS_HISTORY_LEN: usize = 120;

/// How many earlier samples weigh in the running frame-rate average.
pub const FPS_AVERAGE_WINDOW: usize = 60;

/// The last `n` elements of `s` (all of them when it holds no more).
pub open spec fn keep_last<T>(s: Seq<T>, n: nat) -> Seq<T> {
    if s.len() > n {
        s.skip(s.len() - n)
    } else {
        s
    }
}

/// Frame counts gathered once a second.
pub struct FpsStats {
    /// Frames in the last full second.
    pub fps: u32,
    /// The lowest count seen; `None` before the first second.
    pub fps_min: Option<u32>,
    /// The highest count seen (0 before the first second).
    pub fps_max: u32,
    /// The most recent counts, oldest first.
    pub history: Vec<u32>,
}

impl FpsStats {
    pub open spec fn wf(&self) -> bool {
        self.history@.len() <= FPS_HISTORY_LEN
    }

    pub fn new() -> (s: FpsStats)
        ensures
            s.wf(),
            s.fps == 0,
            s.fps_min is None,
            s.fps_max == 0,
            s.history@ == Seq::<u32>::empty(),
    {
        FpsStats { fps: 0, fps_min: None, fps_max: 0, history: Vec::new() }
    }

    /// Records the frame count of one elapsed second. Returns how many
    /// earlier samples the running average gives weight to (at most
    /// `FPS_AVERAGE_WINDOW`), counted before this sample.
    pub fn record_second(&mut self, frames: u32) -> (weight: usize)
        ensures
            old(self).wf() ==> final(self).wf(),
            weight == if old(self).history@.len() < FPS_AVERAGE_WINDOW {
                old(self).history@.len()
            } else {
                FPS_AVERAGE_WINDOW as nat
            },
            final(self).fps == frames,
            final(self).fps_min == Some(
                match old(self).fps_min {
                    None => frames,
                    Some(m) => if frames < m {
                        frames
                    } else {
                        m
                    },
                },
            ),
            final(self).fps_max == if frames > old(self).fps_max {
                frames
            } else {
                old(self).fps_max
            },
            final(self).history@ == if old(self).history@.len() + 1 > FPS_HISTORY_LEN {
                old(self).history@.push(frames).skip(1)
            } else {
                old(self).history@.push(frames)
            },
            old(self).wf() ==> final(self).history@ == keep_last(
                old(self).history@.push(frames),
                FPS_HISTORY_LEN as nat,
            ),
    {
        let n = self.history.len();
        let weight = if n < FPS_AVERAGE_WINDOW {
            n
        } else {
            FPS_AVERAGE_WINDOW
        };
        self.fps = frames;
        match self.fps_min {
            None => self.fps_min = Some(frames),
            Some(m) => if frames < m {
                self.fps_min = Some(frames);
            },
        }
        if frames > self.fps_max {
            self.fps_max = frames;
        }
        self.history.push(frames);
        if self.history.len() > FPS_HISTORY_LEN {
            self.history.remove(0);
            assert(self.history@ =~= old(self).history@.push(frames).skip(1));
        }
        weight
    }
}

/// How the frame rate is coloured in the overlay.
#[derive(Debug, Clone, Copy, PartialEq, Eq, Structural)]
pub enum FpsLevel {
    /// 60 frames a second or more.
    Smooth,
    /// 30 to 59.
    Fair,
    /// Under 30.
    Slow,
}

pub fn fps_level(fps: u32) -> (r: FpsLevel)
    ensures
        r == if fps >= 60 {
            FpsLevel::Smooth
        } else if fps >= 30 {
            FpsLevel::Fair
        } else {
            FpsLevel::Slow
        },
{
    if fps >= 60 {
        FpsLevel::Smooth
    } else if fps >= 30 {
        FpsLevel::Fair
    } else {
        FpsLevel::Slow
    }
}

/// The trail samples with `sample` appended when there is one.
pub open spec fn with_sample<T>(s: Seq<T>, sample: Option<T>) -> Seq<T> {
    match sample {
        Some(x) => s.push(x),
        None => s,
    }
}

/// Records a rotation-trail tick: appends the selected object's rotation,
/// if an object is selected, then drops the oldest samples until at most
/// `max_len` remain.
pub fn record_trail<T>(trail: &mut Vec<T>, sample: Option<T>, max_len: usize)
    ensures
        final(trail)@ == keep_last(with_sample(old(trail)@, sample), max_len as nat),
        final(trail)@.len() <= max_len,
{
    let ghost full = with_sample(old(trail)@, sample);
    match sample {
        Some(x) => trail.push(x),
        None => {},
    }
    while trail.len() > max_len
        invariant
            trail@ == full.skip(full.len() - trail@.len()),
            trail@.len() <= full.len(),
            trail@.len() == full.len() || trail@.len() >= max_len,
        decreases trail@.len(),
    {
        trail.remove(0);
        assert(trail@ =~= full.skip(full.len() - trail@.len()));
    }
    assert(trail@ =~= keep_last(full, max_len as nat)) by {
        if full.len() <= max_len {
            assert(full.skip(0) =~= full);
        }
    }
}

/// The trail never holds more samples than its length setting, and it holds
/// the newest ones, in order.
pub proof fn lemma_trail_keeps_newest<T>(s: Seq<T>, n: nat)
    ensures
        keep_last(s, n).len() == if s.len() > n { n } else { s.len() },
        forall|i: int|
            0 <= i < keep_last(s, n).len() ==> #[trigger] keep_last(s, n)[i] == s[s.len() - keep_last(s, n).len() + i],
{
}

} // verus!
