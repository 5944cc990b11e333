//! Sprite-sheet animation engine: per-entity clips, frame advance with
//! cumulative thresholds, looping and completion, and the event-driven
//! switch between clips.
//!
//! Ordering: the scheduler must apply every clip-switch request raised in
//! a tick (`change_animation`) before playback advances
//! (`animate_spritesheet`), so no frame of the old clip is drawn after a
//! switch was already decided.

use vstd::prelude::*;
use crate::Entity;
use crate::timer::Timer;
use crate::vec2::Vec2i;

verus! {

/// Which clip an entity shows.  Custom clips (wall grab, weapon swings)
/// carry a content-chosen numeric tag.
#[derive(Clone, Copy, Debug, PartialEq, Eq, Structural)]
pub enum AnimationType {
    Idle,
    Walk,
    Sprint,
    Jump,
    BeginFall,
    Fall,
    Custom(u32),
}

impl Default for AnimationType {
    /// An entity starts on its idle clip.
    fn default() -> (r: Self)
        ensures
            r == AnimationType::Idle,
    {
        AnimationType::Idle
    }
}

/// How a clip switch treats the horizontal mirror flag.
#[derive(Clone, Copy, Debug, PartialEq, Eq, Structural)]
pub enum FlipAnimation {
    Flipped,
    UnFlipped,
    /// Keep whatever flip the entity currently has.
    Unchanged,
}

/// Request to switch an entity to another clip.  The only external write
/// path into an entity's animation state.
#[derive(Clone, Copy, Debug)]
pub struct ChangeAnimationEvent {
    pub entity: Entity,
    pub new_animation: AnimationType,
    pub restart_animation: bool,
    pub flipped: FlipAnimation,
}

/// Emitted when a clip's full duration has elapsed.
#[derive(Clone, Copy, Debug)]
pub struct AnimationFinishedEvent {
    pub entity: Entity,
    pub animation_type: AnimationType,
}

/// When set, the automatic idle/walk/jump clip selection skips the entity
/// (the wall-cling controller sets this while it owns the animation).
#[derive(Clone, Copy, Debug, Default)]
pub struct AutoAnimation {
    pub disabled: bool,
}

/// Why building a clip was refused.  All three are content errors caught
/// at construction; playback never fails.
#[derive(Clone, Copy, Debug, PartialEq, Eq, Structural)]
pub enum AnimationConfigError {
    /// The duration list's length differs from the declared frame count.
    FrameCountMismatch,
    /// Some frame lasts zero milliseconds.
    ZeroFrameDuration,
    /// The durations add up to more than a `u32` of milliseconds.
    DurationOverflow,
}

/// Sum of the first `n` frame durations, in milliseconds.
pub open spec fn duration_prefix_sum(steps: Seq<u32>, n: int) -> int
    decreases n,
{
    if n <= 0 {
        0
    } else {
        duration_prefix_sum(steps, n - 1) + steps[n - 1]
    }
}

/// Cumulative frame thresholds are well formed: at least one frame, the
/// first threshold positive, and strictly increasing thereafter.
pub open spec fn thresholds_wf(t: Seq<u32>) -> bool {
    &&& t.len() >= 1
    &&& forall|i: int| 0 <= i < t.len() ==> 1 <= #[trigger] t[i]
    &&& forall|i: int| 0 < i < t.len() ==> #[trigger] t[i - 1] < t[i]
}

/// One sprite-sheet clip: a visual handle for the renderer, the cumulative
/// frame thresholds, an elapsed-time clock over the whole clip, and the
/// frame currently shown.
#[derive(Clone, Debug)]
pub struct Animation {
    /// Renderer handle of the clip's texture atlas.
    pub atlas: u64,
    /// Clock over the whole clip; its duration is the last threshold.
    pub timer: Timer,
    /// Cumulative frame-end times, in milliseconds, strictly increasing.
    pub frame_steps: Vec<u32>,
    /// Declared frame count; always equals `frame_steps.len()`.
    pub total_frames: usize,
    /// Index of the frame currently shown; always a valid index.
    pub current_frame: usize,
    /// Whether the clip replays from the start after finishing.
    pub repeating: bool,
}

impl Animation {
    /// Well-formedness: valid thresholds, a clock running over exactly the
    /// clip's total duration, and an in-bounds current frame.
    pub open spec fn wf(self) -> bool {
        &&& thresholds_wf(self.frame_steps@)
        &&& self.total_frames == self.frame_steps@.len()
        &&& self.timer.wf()
        &&& self.timer.duration_ms == self.frame_steps@.last()
        &&& self.current_frame < self.frame_steps@.len()
    }

    /// The configuration is acceptable: count matches, no zero-length
    /// frame, and a total duration that fits the clock.
    pub open spec fn config_ok(steps: Seq<u32>, total_frames: int) -> bool {
        &&& steps.len() == total_frames
        &&& forall|i: int| 0 <= i < steps.len() ==> 1 <= #[trigger] steps[i]
        &&& steps.len() >= 1
        &&& duration_prefix_sum(steps, steps.len() as int) <= u32::MAX
    }

    /// Build a clip from per-frame durations (milliseconds).  Fails fast on
    /// configuration errors; a clip that constructs can always play.
    pub fn with_custom_framesteps(
        atlas: u64,
        frame_steps: Vec<u32>,
        total_frames: usize,
        repeating: bool,
    ) -> (r: Result<Animation, AnimationConfigError>)
        ensures
            r is Ok <==> Self::config_ok(frame_steps@, total_frames as int),
            r matches Err(e) ==> {
                &&& (e == AnimationConfigError::FrameCountMismatch
                    <==> frame_steps@.len() != total_frames)
                &&& (e == AnimationConfigError::ZeroFrameDuration
                    <==> (frame_steps@.len() == total_frames
                        && (frame_steps@.len() == 0
                            || exists|i: int| 0 <= i < frame_steps@.len()
                                && #[trigger] frame_steps@[i] == 0)))
                &&& (e == AnimationConfigError::DurationOverflow
                    <==> (frame_steps@.len() == total_frames
                        && frame_steps@.len() >= 1
                        && (forall|i: int| 0 <= i < frame_steps@.len()
                            ==> 1 <= #[trigger] frame_steps@[i])
                        && duration_prefix_sum(frame_steps@, frame_steps@.len() as int)
                            > u32::MAX))
            },
            r matches Ok(clip) ==> {
                &&& clip.wf()
                &&& clip.atlas == atlas
                &&& clip.repeating == repeating
                &&& clip.total_frames == total_frames
                &&& clip.current_frame == 0
                &&& clip.timer.elapsed_ms == 0
                &&& clip.frame_steps@.len() == frame_steps@.len()
                &&& forall|i: int| 0 <= i < frame_steps@.len()
                    ==> #[trigger] clip.frame_steps@[i]
                        == duration_prefix_sum(frame_steps@, i + 1)
            },
    {
        if frame_steps.len() != total_frames {
            return Err(AnimationConfigError::FrameCountMismatch);
        }
        if frame_steps.len() == 0 {
            return Err(AnimationConfigError::ZeroFrameDuration);
        }
        let mut i: usize = 0;
        while i < frame_steps.len()
            invariant
                i <= frame_steps@.len(),
                frame_steps@.len() == total_frames,
                frame_steps@.len() >= 1,
                forall|j: int| 0 <= j < i ==> 1 <= #[trigger] frame_steps@[j],
            decreases frame_steps@.len() - i,
        {
            if frame_steps[i] == 0 {
                proof {
                    assert(frame_steps@[i as int] == 0);
                }
                return Err(AnimationConfigError::ZeroFrameDuration);
            }
            i = i + 1;
        }
        let mut thresholds: Vec<u32> = Vec::new();
        let mut total: u32 = 0;
        let mut i: usize = 0;
        while i < frame_steps.len()
            invariant
                i <= frame_steps@.len(),
                frame_steps@.len() == total_frames,
                frame_steps@.len() >= 1,
                thresholds@.len() == i,
                total == duration_prefix_sum(frame_steps@, i as int),
                forall|j: int| 0 <= j < frame_steps@.len()
                    ==> 1 <= #[trigger] frame_steps@[j],
                forall|j: int| 0 <= j < i
                    ==> #[trigger] thresholds@[j] == duration_prefix_sum(frame_steps@, j + 1),
                forall|j: int| 0 <= j < i ==> 1 <= #[trigger] thresholds@[j],
                forall|j: int| 0 < j < i
                    ==> #[trigger] thresholds@[j - 1] < thresholds@[j],
                i >= 1 ==> total == thresholds@.last(),
                i >= 1 ==> 1 <= total,
            decreases frame_steps@.len() - i,
        {
            let step: u32 = frame_steps[i];
            match total.checked_add(step) {
                Some(t) => {
                    total = t;
                    thresholds.push(total);
                },
                None => {
                    proof {
                        assert(duration_prefix_sum(frame_steps@, i as int + 1)
                            == total + frame_steps@[i as int]);
                        lemma_prefix_sum_grows(frame_steps@, i as int + 1,
                            frame_steps@.len() as int);
                    }
                    return Err(AnimationConfigError::DurationOverflow);
                },
            }
            i = i + 1;
        }
        Ok(Animation {
            atlas,
            timer: Timer::new(total),
            frame_steps: thresholds,
            total_frames,
            current_frame: 0,
            repeating,
        })
    }

    /// Build a clip whose frames all last `frame_step` milliseconds.
    pub fn with_fixed_framesteps(
        atlas: u64,
        frame_step: u32,
        total_frames: usize,
        repeating: bool,
    ) -> (r: Result<Animation, AnimationConfigError>)
        ensures
            r is Ok <==> (1 <= frame_step && 1 <= total_frames
                && total_frames * frame_step <= u32::MAX),
            r matches Ok(clip) ==> {
                &&& clip.wf()
                &&& clip.atlas == atlas
                &&& clip.repeating == repeating
                &&& clip.total_frames == total_frames
                &&& clip.current_frame == 0
                &&& clip.timer.elapsed_ms == 0
                &&& clip.frame_steps@.len() == total_frames
                &&& forall|i: int| 0 <= i < total_frames
                    ==> #[trigger] clip.frame_steps@[i] == (i + 1) * frame_step
            },
    {
        let mut steps: Vec<u32> = Vec::new();
        let mut i: usize = 0;
        while i < total_frames
            invariant
                i <= total_frames,
                steps@.len() == i,
                forall|j: int| 0 <= j < i ==> #[trigger] steps@[j] == frame_step,
            decreases total_frames - i,
        {
            steps.push(frame_step);
            i = i + 1;
        }
        proof {
            lemma_constant_prefix_sum(steps@, frame_step, steps@.len() as int);
            assert forall|k: int| 0 <= k <= steps@.len()
                implies #[trigger] duration_prefix_sum(steps@, k) == k * frame_step by {
                lemma_constant_prefix_sum(steps@, frame_step, k);
            }
        }
        match Self::with_custom_framesteps(atlas, steps, total_frames, repeating) {
            Ok(clip) => Ok(clip),
            Err(e) => Err(e),
        }
    }

    /// Advance the clock by `dt_ms`.
    pub fn tick(&mut self, dt_ms: u32)
        requires
            old(self).wf(),
        ensures
            final(self).wf(),
            *final(self) == (Animation {
                timer: final(self).timer,
                ..*old(self)
            }),
            final(self).timer.duration_ms == old(self).timer.duration_ms,
            final(self).timer.elapsed_ms == if old(self).timer.elapsed_ms + dt_ms
                >= old(self).timer.duration_ms { old(self).timer.duration_ms as int } else {
                old(self).timer.elapsed_ms + dt_ms
            },
    {
        self.timer.tick(dt_ms);
    }

    /// Elapsed time within the clip, in milliseconds.
    pub fn get_time(&self) -> (r: u32)
        ensures
            r == self.timer.elapsed_ms,
    {
        self.timer.elapsed_ms
    }

    /// Whether the clip's whole duration has elapsed.
    pub fn done(&self) -> (r: bool)
        requires
            self.wf(),
        ensures
            r == (self.timer.elapsed_ms == self.timer.duration_ms),
    {
        self.timer.finished()
    }

    /// The frame currently shown.
    pub fn current_frame(&self) -> (r: usize)
        ensures
            r == self.current_frame,
    {
        self.current_frame
    }

    /// Step to the next frame.  Playback calls this only while a later
    /// threshold exists.
    pub fn next_frame(&mut self)
        requires
            old(self).current_frame + 1 < old(self).frame_steps@.len(),
        ensures
            *final(self) == (Animation {
                current_frame: (old(self).current_frame + 1) as usize,
                ..*old(self)
            }),
    {
        let frames: usize = self.frame_steps.len();
        self.current_frame = self.current_frame + 1;
    }

    /// Show the first frame again.
    pub fn restart_animation(&mut self)
        ensures
            *final(self) == (Animation { current_frame: 0, ..*old(self) }),
    {
        self.current_frame = 0;
    }

    /// Cumulative threshold of frame `index`, in milliseconds.
    pub fn get_frame_step(&self, index: usize) -> (r: u32)
        requires
            index < self.frame_steps@.len(),
        ensures
            r == self.frame_steps@[index as int],
    {
        self.frame_steps[index]
    }

    /// One playback step: advance the clock; on completion show frame zero
    /// again (rewinding the clock only for looping clips) and report the
    /// completion; otherwise step over every threshold the clock has
    /// passed.
    pub fn advance(&mut self, dt_ms: u32) -> (finished: bool)
        requires
            old(self).wf(),
        ensures
            final(self).wf(),
            final(self).atlas == old(self).atlas,
            final(self).repeating == old(self).repeating,
            final(self).frame_steps == old(self).frame_steps,
            final(self).total_frames == old(self).total_frames,
            final(self).timer.duration_ms == old(self).timer.duration_ms,
            finished == (old(self).timer.elapsed_ms + dt_ms
                >= old(self).timer.duration_ms),
            finished ==> final(self).current_frame == 0,
            finished ==> final(self).timer.elapsed_ms
                == (if old(self).repeating { 0 } else {
                    old(self).timer.duration_ms as int }),
            !finished ==> {
                &&& final(self).timer.elapsed_ms == old(self).timer.elapsed_ms + dt_ms
                &&& old(self).current_frame <= final(self).current_frame
                    < final(self).frame_steps@.len()
                &&& final(self).timer.elapsed_ms
                    < final(self).frame_steps@[final(self).current_frame as int]
                &&& forall|k: int| old(self).current_frame <= k < final(self).current_frame
                    ==> #[trigger] final(self).frame_steps@[k]
                        <= final(self).timer.elapsed_ms
            },
    {
        self.timer.tick(dt_ms);
        if self.timer.finished() {
            self.current_frame = 0;
            if self.repeating {
                self.timer.reset();
            }
            true
        } else {
            let elapsed: u32 = self.timer.elapsed_ms;
            while self.frame_steps[self.current_frame] <= elapsed
                invariant
                    thresholds_wf(self.frame_steps@),
                    self.frame_steps == old(self).frame_steps,
                    self.atlas == old(self).atlas,
                    self.repeating == old(self).repeating,
                    self.total_frames == old(self).total_frames,
                    self.timer.wf(),
                    self.timer.duration_ms == old(self).timer.duration_ms,
                    self.timer.duration_ms == self.frame_steps@.last(),
                    self.timer.elapsed_ms == elapsed,
                    elapsed < self.frame_steps@.last(),
                    old(self).current_frame <= self.current_frame
                        < self.frame_steps@.len(),
                    forall|k: int| old(self).current_frame <= k < self.current_frame
                        ==> #[trigger] self.frame_steps@[k] <= elapsed,
                decreases self.frame_steps@.len() - self.current_frame,
            {
                proof {
                    // The last threshold exceeds `elapsed`, so the frame
                    // whose threshold was passed is not the last one.
                    lemma_thresholds_below_last(self.frame_steps@,
                        self.current_frame as int, elapsed as int);
                }
                let frames: usize = self.frame_steps.len();
                self.current_frame = self.current_frame + 1;
            }
            false
        }
    }
}

/// The playback invariant: the frame shown is always a valid index into
/// the clip's threshold list, whatever ticks and switches the clip has
/// seen.  Every function that hands out an `Animation` maintains `wf`, of
/// which this is part.
pub proof fn lemma_current_frame_in_bounds(clip: Animation)
    requires
        clip.wf(),
    ensures
        clip.current_frame < clip.frame_steps@.len(),
{
}

/// How a clip may change in one playback step of `dt` milliseconds: the
/// exact relation `Animation::advance` establishes between the clip before
/// and after the call.
pub open spec fn advanced_from(pre: Animation, post: Animation, dt: int, finished: bool) -> bool {
    &&& post.atlas == pre.atlas
    &&& post.repeating == pre.repeating
    &&& post.frame_steps == pre.frame_steps
    &&& post.total_frames == pre.total_frames
    &&& post.timer.duration_ms == pre.timer.duration_ms
    &&& finished == (pre.timer.elapsed_ms + dt >= pre.timer.duration_ms)
    &&& finished ==> post.current_frame == 0
    &&& finished ==> post.timer.elapsed_ms
        == (if pre.repeating { 0 } else { pre.timer.duration_ms as int })
    &&& !finished ==> {
        &&& post.timer.elapsed_ms == pre.timer.elapsed_ms + dt
        &&& pre.current_frame <= post.current_frame < post.frame_steps@.len()
        &&& post.timer.elapsed_ms < post.frame_steps@[post.current_frame as int]
        &&& forall|k: int| pre.current_frame <= k < post.current_frame
            ==> #[trigger] post.frame_steps@[k] <= post.timer.elapsed_ms
    }
}

/// The resolved mirror flag of a clip switch: an explicit policy wins, and
/// `Unchanged` keeps the entity's current flag.
pub open spec fn resolve_flip(policy: FlipAnimation, current: bool) -> bool {
    match policy {
        FlipAnimation::Flipped => true,
        FlipAnimation::UnFlipped => false,
        FlipAnimation::Unchanged => current,
    }
}

/// The set of clips an entity owns, with the one clip currently shown and
/// the entity's horizontal mirror flag.
#[derive(Clone, Debug)]
pub struct SpriteSheetAnimation {
    /// The owned clips, keyed by their type; no type appears twice.
    pub animations: Vec<(AnimationType, Animation)>,
    /// The clip currently shown; always present in `animations`.
    pub current_animation: AnimationType,
    /// Whether the sprite is mirrored horizontally.
    pub animation_flipped: bool,
}

impl SpriteSheetAnimation {
    /// Whether a clip of this type is owned.
    pub open spec fn has_id(self, id: AnimationType) -> bool {
        exists|i: int| 0 <= i < self.animations@.len()
            && (#[trigger] self.animations@[i]).0 == id
    }

    /// The position of the clip of this type (meaningful when `has_id`).
    pub open spec fn idx_of(self, id: AnimationType) -> int {
        choose|i: int| 0 <= i < self.animations@.len()
            && (#[trigger] self.animations@[i]).0 == id
    }

    /// The clip of this type (meaningful when `has_id`).
    pub open spec fn clip_of(self, id: AnimationType) -> Animation {
        self.animations@[self.idx_of(id)].1
    }

    /// No clip type appears twice.
    pub open spec fn ids_unique(self) -> bool {
        forall|i: int, j: int| 0 <= i < j < self.animations@.len()
            ==> (#[trigger] self.animations@[i]).0 != (#[trigger] self.animations@[j]).0
    }

    /// Well-formedness: unique clip types, every clip well formed, and the
    /// shown clip present.
    pub open spec fn wf(self) -> bool {
        &&& self.ids_unique()
        &&& forall|i: int| 0 <= i < self.animations@.len()
            ==> (#[trigger] self.animations@[i]).1.wf()
        &&& self.has_id(self.current_animation)
    }

    /// An entry at position `i` with type `id` pins down `idx_of(id)`.
    pub proof fn lemma_found(self, id: AnimationType, i: int)
        requires
            self.ids_unique(),
            0 <= i < self.animations@.len(),
            self.animations@[i].0 == id,
        ensures
            self.has_id(id),
            self.idx_of(id) == i,
    {
        assert(self.has_id(id));
        let j = self.idx_of(id);
        assert(0 <= j < self.animations@.len() && self.animations@[j].0 == id);
        if i < j {
            assert(self.animations@[i].0 != self.animations@[j].0);
        } else if j < i {
            assert(self.animations@[j].0 != self.animations@[i].0);
        }
    }

    /// Position of the clip of the given type, if owned.
    pub fn find_index(&self, id: AnimationType) -> (r: Option<usize>)
        requires
            self.ids_unique(),
        ensures
            (r matches Some(i) ==> 0 <= i < self.animations@.len()
                && self.animations@[i as int].0 == id
                && self.has_id(id)
                && self.idx_of(id) == i),
            r is None ==> !self.has_id(id),
    {
        let mut j: usize = 0;
        while j < self.animations.len()
            invariant
                self.ids_unique(),
                j <= self.animations@.len(),
                forall|k: int| 0 <= k < j ==> (#[trigger] self.animations@[k]).0 != id,
            decreases self.animations@.len() - j,
        {
            if self.animations[j].0 == id {
                proof {
                    self.lemma_found(id, j as int);
                }
                return Some(j);
            }
            j = j + 1;
        }
        None
    }

    /// A set holding one clip, which is the one shown.
    pub fn new(animation_type: AnimationType, animation: Animation, flipped: bool) -> (r:
        SpriteSheetAnimation)
        requires
            animation.wf(),
        ensures
            r.wf(),
            r.current_animation == animation_type,
            r.animation_flipped == flipped,
            r.animations@.len() == 1,
            r.has_id(animation_type),
            r.clip_of(animation_type) == animation,
    {
        let mut animations: Vec<(AnimationType, Animation)> = Vec::new();
        animations.push((animation_type, animation));
        let r = SpriteSheetAnimation {
            animations,
            current_animation: animation_type,
            animation_flipped: flipped,
        };
        proof {
            r.lemma_found(animation_type, 0);
        }
        r
    }

    /// The clip currently shown.
    pub fn current(&self) -> (r: &Animation)
        requires
            self.wf(),
        ensures
            *r == self.clip_of(self.current_animation),
    {
        let found = self.find_index(self.current_animation);
        match found {
            Some(i) => &self.animations[i].1,
            None => {
                // The invariant says the shown clip is always owned.
                proof {
                    assert(false);
                }
                &self.animations[0].1
            },
        }
    }

    /// Add a clip, replacing any clip already stored under the same type.
    /// The shown clip and the mirror flag are untouched.
    pub fn add_animation(&mut self, animation_type: AnimationType, animation: Animation)
        requires
            old(self).wf(),
            animation.wf(),
        ensures
            final(self).wf(),
            final(self).current_animation == old(self).current_animation,
            final(self).animation_flipped == old(self).animation_flipped,
            final(self).has_id(animation_type),
            final(self).clip_of(animation_type) == animation,
            forall|other: AnimationType| other != animation_type
                ==> #[trigger] final(self).has_id(other) == old(self).has_id(other),
            forall|other: AnimationType| other != animation_type && old(self).has_id(other)
                ==> #[trigger] final(self).clip_of(other) == old(self).clip_of(other),
    {
        let found = self.find_index(animation_type);
        match found {
            Some(i) => {
                vstd::std_specs::core::index_set(&mut self.animations, i,
                    (animation_type, animation));
                proof {
                    lemma_entry_swap(*old(self), *self, i as int, animation_type);
                }
            },
            None => {
                self.animations.push((animation_type, animation));
                proof {
                    lemma_entry_push(*old(self), *self, animation_type);
                }
            },
        }
    }

    /// Switch the shown clip.  A request naming the clip and flip the
    /// entity already shows is a complete no-op: no frame reset even when
    /// `restart` is set, and nothing for the renderer to apply.
    /// Otherwise, returns the new clip's atlas handle and frame for the
    /// renderer, or nothing (and changes nothing) when no clip of the
    /// requested type is owned.  When `restart` is set, the target clip
    /// starts over at frame zero.
    pub fn set_current(&mut self, new_type: AnimationType, flipped: bool, restart: bool) -> (r:
        Option<(u64, usize)>)
        requires
            old(self).wf(),
        ensures
            final(self).wf(),
            forall|t: AnimationType| #[trigger] final(self).has_id(t)
                == old(self).has_id(t),
            (new_type == old(self).current_animation
                && flipped == old(self).animation_flipped)
                ==> *final(self) == *old(self) && r is None,
            !(new_type == old(self).current_animation
                && flipped == old(self).animation_flipped) ==> {
                &&& (r is Some <==> old(self).has_id(new_type))
                &&& !old(self).has_id(new_type) ==> *final(self) == *old(self)
                &&& old(self).has_id(new_type) ==> {
                    &&& final(self).current_animation == new_type
                    &&& final(self).animation_flipped == flipped
                    &&& final(self).clip_of(new_type) == (Animation {
                        current_frame: if restart { 0 } else {
                            old(self).clip_of(new_type).current_frame
                        },
                        ..old(self).clip_of(new_type)
                    })
                    &&& forall|other: AnimationType| other != new_type
                        && old(self).has_id(other)
                        ==> #[trigger] final(self).clip_of(other)
                            == old(self).clip_of(other)
                    &&& r == Some((old(self).clip_of(new_type).atlas,
                        final(self).clip_of(new_type).current_frame))
                }
            },
    {
        if new_type == self.current_animation && flipped == self.animation_flipped {
            return None;
        }
        let found = self.find_index(new_type);
        match found {
            Some(i) => {
                self.current_animation = new_type;
                self.animation_flipped = flipped;
                let mut pair = self.animations.remove(i);
                if restart {
                    pair.1.current_frame = 0;
                }
                let atlas: u64 = pair.1.atlas;
                let frame: usize = pair.1.current_frame;
                self.animations.insert(i, pair);
                proof {
                    assert(self.animations@
                        =~= old(self).animations@.update(i as int, pair));
                    lemma_entry_swap(*old(self), *self, i as int, new_type);
                }
                Some((atlas, frame))
            },
            None => None,
        }
    }

    /// Apply one clip-switch request: resolve the flip policy, and change
    /// nothing when the request names the clip and flip the entity already
    /// shows.  Returns the atlas handle and frame to draw when a switch
    /// happened.
    pub fn change_animation(&mut self, event: &ChangeAnimationEvent) -> (r: Option<(u64, usize)>)
        requires
            old(self).wf(),
        ensures
            final(self).wf(),
            forall|t: AnimationType| #[trigger] final(self).has_id(t)
                == old(self).has_id(t),
            ({
                let flip = resolve_flip(event.flipped, old(self).animation_flipped);
                &&& (event.new_animation == old(self).current_animation
                    && flip == old(self).animation_flipped)
                    ==> *final(self) == *old(self) && r is None
                &&& !(event.new_animation == old(self).current_animation
                    && flip == old(self).animation_flipped)
                    ==> {
                    &&& (r is Some <==> old(self).has_id(event.new_animation))
                    &&& !old(self).has_id(event.new_animation)
                        ==> *final(self) == *old(self)
                    &&& old(self).has_id(event.new_animation) ==> {
                        &&& final(self).current_animation == event.new_animation
                        &&& final(self).animation_flipped == flip
                        &&& final(self).clip_of(event.new_animation) == (Animation {
                            current_frame: if event.restart_animation { 0 } else {
                                old(self).clip_of(event.new_animation).current_frame
                            },
                            ..old(self).clip_of(event.new_animation)
                        })
                        &&& forall|other: AnimationType|
                            other != event.new_animation && old(self).has_id(other)
                            ==> #[trigger] final(self).clip_of(other)
                                == old(self).clip_of(other)
                    }
                }
            }),
    {
        let flipped: bool = match event.flipped {
            FlipAnimation::Flipped => true,
            FlipAnimation::UnFlipped => false,
            FlipAnimation::Unchanged => self.animation_flipped,
        };
        self.set_current(event.new_animation, flipped, event.restart_animation)
    }

    /// One playback step of the shown clip: advance its clock and frame.
    /// Returns whether the clip finished this step (the caller emits the
    /// finished event) and the frame now to be drawn.
    pub fn advance_current(&mut self, dt_ms: u32) -> (r: (bool, usize))
        requires
            old(self).wf(),
        ensures
            final(self).wf(),
            final(self).current_animation == old(self).current_animation,
            final(self).animation_flipped == old(self).animation_flipped,
            advanced_from(old(self).clip_of(old(self).current_animation),
                final(self).clip_of(final(self).current_animation), dt_ms as int, r.0),
            r.1 == final(self).clip_of(final(self).current_animation).current_frame,
            forall|other: AnimationType| #[trigger] final(self).has_id(other)
                == old(self).has_id(other),
            forall|other: AnimationType|
                other != old(self).current_animation && old(self).has_id(other)
                ==> #[trigger] final(self).clip_of(other) == old(self).clip_of(other),
    {
        let found = self.find_index(self.current_animation);
        match found {
            Some(i) => {
                let mut pair = self.animations.remove(i);
                let finished: bool = pair.1.advance(dt_ms);
                let frame: usize = pair.1.current_frame;
                let ghost id = self.current_animation;
                self.animations.insert(i, pair);
                proof {
                    assert(self.animations@
                        =~= old(self).animations@.update(i as int, pair));
                    lemma_entry_swap(*old(self), *self, i as int, id);
                }
                (finished, frame)
            },
            None => {
                // The invariant says the shown clip is always owned.
                proof {
                    assert(false);
                }
                (false, 0)
            },
        }
    }
}

/// After replacing the entry at `i` (whose stored type is `id` both before
/// and after), lookups behave like a map update at `id`.
proof fn lemma_entry_swap(pre: SpriteSheetAnimation, post: SpriteSheetAnimation, i: int,
    id: AnimationType)
    requires
        pre.ids_unique(),
        0 <= i < pre.animations@.len(),
        pre.animations@[i].0 == id,
        post.animations@ == pre.animations@.update(i, (id, post.animations@[i].1)),
    ensures
        post.ids_unique(),
        post.has_id(id),
        post.idx_of(id) == i,
        post.clip_of(id) == post.animations@[i].1,
        forall|other: AnimationType| other != id
            ==> #[trigger] post.has_id(other) == pre.has_id(other),
        forall|other: AnimationType| other != id && pre.has_id(other)
            ==> #[trigger] post.clip_of(other) == pre.clip_of(other)
                && post.idx_of(other) == pre.idx_of(other),
{
    assert(forall|k: int| 0 <= k < post.animations@.len()
        ==> (#[trigger] post.animations@[k]).0 == pre.animations@[k].0);
    assert(post.ids_unique());
    post.lemma_found(id, i);
    assert forall|other: AnimationType| other != id
        implies #[trigger] post.has_id(other) == pre.has_id(other) by {
        if pre.has_id(other) {
            let j = pre.idx_of(other);
            post.lemma_found(other, j);
        }
        if post.has_id(other) {
            let j = post.idx_of(other);
            pre.lemma_found(other, j);
        }
    }
    assert forall|other: AnimationType| other != id && pre.has_id(other)
        implies #[trigger] post.clip_of(other) == pre.clip_of(other)
            && post.idx_of(other) == pre.idx_of(other) by {
        let j = pre.idx_of(other);
        pre.lemma_found(other, j);
        assert(j != i);
        post.lemma_found(other, j);
    }
}

/// After appending an entry with a type not yet present, lookups behave
/// like a map insertion at that type.
proof fn lemma_entry_push(pre: SpriteSheetAnimation, post: SpriteSheetAnimation,
    id: AnimationType)
    requires
        pre.ids_unique(),
        !pre.has_id(id),
        post.animations@.len() == pre.animations@.len() + 1,
        post.animations@ == pre.animations@.push(post.animations@.last()),
        post.animations@.last().0 == id,
    ensures
        post.ids_unique(),
        post.has_id(id),
        post.idx_of(id) == pre.animations@.len(),
        post.clip_of(id) == post.animations@.last().1,
        forall|other: AnimationType| other != id
            ==> #[trigger] post.has_id(other) == pre.has_id(other),
        forall|other: AnimationType| other != id && pre.has_id(other)
            ==> #[trigger] post.clip_of(other) == pre.clip_of(other)
                && post.idx_of(other) == pre.idx_of(other),
{
    let n = pre.animations@.len() as int;
    assert(forall|k: int| 0 <= k < n
        ==> (#[trigger] post.animations@[k]) == pre.animations@[k]);
    assert forall|k: int| 0 <= k < n
        implies (#[trigger] post.animations@[k]).0 != id by {
        if post.animations@[k].0 == id {
            pre.lemma_found(id, k);
        }
    }
    assert(post.ids_unique());
    post.lemma_found(id, n);
    assert forall|other: AnimationType| other != id
        implies #[trigger] post.has_id(other) == pre.has_id(other) by {
        if pre.has_id(other) {
            let j = pre.idx_of(other);
            post.lemma_found(other, j);
        }
        if post.has_id(other) {
            let j = post.idx_of(other);
            if j < n {
                pre.lemma_found(other, j);
            }
        }
    }
    assert forall|other: AnimationType| other != id && pre.has_id(other)
        implies #[trigger] post.clip_of(other) == pre.clip_of(other)
            && post.idx_of(other) == pre.idx_of(other) by {
        let j = pre.idx_of(other);
        pre.lemma_found(other, j);
        post.lemma_found(other, j);
    }
}

/// One entity's tick of sprite playback: advance the shown clip and hand
/// back the frame to draw, together with the finished event to queue when
/// the clip's duration ran out this tick.
pub fn animate_spritesheet(entity: Entity, sprite_sheet: &mut SpriteSheetAnimation,
    dt_ms: u32) -> (r: (Option<AnimationFinishedEvent>, usize))
    requires
        old(sprite_sheet).wf(),
    ensures
        final(sprite_sheet).wf(),
        final(sprite_sheet).current_animation == old(sprite_sheet).current_animation,
        final(sprite_sheet).animation_flipped == old(sprite_sheet).animation_flipped,
        forall|t: AnimationType| #[trigger] final(sprite_sheet).has_id(t)
            == old(sprite_sheet).has_id(t),
        ({
            let finished = r.0 is Some;
            &&& advanced_from(
                old(sprite_sheet).clip_of(old(sprite_sheet).current_animation),
                final(sprite_sheet).clip_of(final(sprite_sheet).current_animation),
                dt_ms as int, finished)
            &&& r.1 == final(sprite_sheet).clip_of(
                final(sprite_sheet).current_animation).current_frame
            &&& (r.0 matches Some(ev) ==> ev.entity == entity
                && ev.animation_type == old(sprite_sheet).current_animation)
        }),
        forall|other: AnimationType|
            other != old(sprite_sheet).current_animation && old(sprite_sheet).has_id(other)
            ==> #[trigger] final(sprite_sheet).clip_of(other)
                == old(sprite_sheet).clip_of(other),
{
    let (finished, frame) = sprite_sheet.advance_current(dt_ms);
    if finished {
        let event = AnimationFinishedEvent {
            entity,
            animation_type: sprite_sheet.current_animation,
        };
        (Some(event), frame)
    } else {
        (None, frame)
    }
}

/// Vertical speed above which an airborne entity shows the jump clip, in
/// thousandths of a unit per second; below its negation the fall clip.
pub const RISE_FALL_THRESHOLD: i64 = 60_000;

/// Pick the clip an entity should show from its velocity and grounding:
/// rising fast shows `Jump`, hovering shows `BeginFall`, dropping shows
/// `Fall`; on the ground, standing still shows `Idle` and moving shows
/// `Walk`.  The mirror flag follows the sign of the horizontal speed.
/// Entities whose automatic animation is disabled get no request.
/// `grounded` is absent for entities that track no ground contacts; they
/// count as grounded.
pub fn set_sprite_auto(entity: Entity, auto_anim: &AutoAnimation, velocity: Vec2i,
    grounded: Option<bool>) -> (r: Option<ChangeAnimationEvent>)
    ensures
        auto_anim.disabled ==> r is None,
        !auto_anim.disabled ==> (r matches Some(ev) && {
            let g = (grounded matches Some(b) ==> b);
            &&& ev.entity == entity
            &&& !ev.restart_animation
            &&& ev.flipped == (if velocity.x > 0 { FlipAnimation::UnFlipped } else if velocity.x
                < 0 { FlipAnimation::Flipped } else { FlipAnimation::Unchanged })
            &&& ev.new_animation == (if !g && velocity.y > RISE_FALL_THRESHOLD {
                AnimationType::Jump
            } else if !g && velocity.y > -RISE_FALL_THRESHOLD {
                AnimationType::BeginFall
            } else if !g {
                AnimationType::Fall
            } else if velocity.x == 0 {
                AnimationType::Idle
            } else {
                AnimationType::Walk
            })
        }),
{
    if auto_anim.disabled {
        return None;
    }
    let flipped: FlipAnimation = if velocity.x > 0 {
        FlipAnimation::UnFlipped
    } else if velocity.x < 0 {
        FlipAnimation::Flipped
    } else {
        FlipAnimation::Unchanged
    };
    let g: bool = match grounded {
        Some(b) => b,
        None => true,
    };
    let new_animation: AnimationType = if !g && velocity.y > RISE_FALL_THRESHOLD {
        AnimationType::Jump
    } else if !g && velocity.y > -RISE_FALL_THRESHOLD {
        AnimationType::BeginFall
    } else if !g {
        AnimationType::Fall
    } else if velocity.x == 0 {
        AnimationType::Idle
    } else {
        AnimationType::Walk
    };
    Some(ChangeAnimationEvent {
        entity,
        new_animation,
        restart_animation: false,
        flipped,
    })
}

/// Prefix sums only grow with more frames.
proof fn lemma_prefix_sum_grows(steps: Seq<u32>, n: int, m: int)
    requires
        0 <= n <= m <= steps.len(),
    ensures
        duration_prefix_sum(steps, n) <= duration_prefix_sum(steps, m),
    decreases m - n,
{
    if n < m {
        lemma_prefix_sum_grows(steps, n, m - 1);
    }
}

/// Prefix sums over a constant sequence are multiples of the constant.
proof fn lemma_constant_prefix_sum(steps: Seq<u32>, step: u32, n: int)
    requires
        0 <= n <= steps.len(),
        forall|j: int| 0 <= j < steps.len() ==> #[trigger] steps[j] == step,
    ensures
        duration_prefix_sum(steps, n) == n * step,
    decreases n,
{
    if n <= 0 {
        assert(n * step == 0) by (nonlinear_arith)
            requires n == 0;
    } else {
        lemma_constant_prefix_sum(steps, step, n - 1);
        assert(steps[n - 1] == step);
        assert(n * step == (n - 1) * step + step) by (nonlinear_arith);
    }
}

/// In a strictly increasing threshold list, a time below the last
/// threshold is below the threshold of some frame at or after `i`; in
/// particular, a frame whose threshold is passed is not the last.
proof fn lemma_thresholds_below_last(t: Seq<u32>, i: int, elapsed: int)
    requires
        thresholds_wf(t),
        0 <= i < t.len(),
        elapsed < t.last(),
    ensures
        t[i] <= elapsed ==> i + 1 < t.len(),
{
    if t[i] <= elapsed && i + 1 >= t.len() {
        assert(t[i] == t.last());
    }
}

} // verus!
