//! What the renderer decides before it draws: the pass of each sprite, the
//! order within a pass, and the window of frame times that the frame rate is
//! averaged over.

use vstd::prelude::*;

use crate::kb_game_object::{GameObject, GameObjectType};
use crate::kb_utils::KbFloat;

verus! {

/// The depth of a sprite as an integer that orders sprites from near to far.
pub open spec fn depth_key(object: GameObject) -> int {
    object.position.z.order_key()
}

/// The sprites of the sky box pass.
pub open spec fn sky_pass() -> spec_fn(GameObject) -> bool {
    |object: GameObject| object.object_type == GameObjectType::Skybox
}

/// The sprites of the cloud pass.
pub open spec fn cloud_pass() -> spec_fn(GameObject) -> bool {
    |object: GameObject| object.object_type == GameObjectType::Cloud
}

/// The sprites of the world pass: all that are neither sky box nor cloud.
pub open spec fn world_pass() -> spec_fn(GameObject) -> bool {
    |object: GameObject|
        object.object_type != GameObjectType::Skybox && object.object_type
            != GameObjectType::Cloud
}

/// The sprites at depth `key`.
pub open spec fn at_depth(key: int) -> spec_fn(GameObject) -> bool {
    |object: GameObject| depth_key(object) == key
}

/// True when no sprite comes before a nearer one.
pub open spec fn is_sorted_by_depth(objects: Seq<GameObject>) -> bool {
    forall|i: int, j: int|
        0 <= i < j < objects.len() ==> depth_key(#[trigger] objects[i]) <= depth_key(
            #[trigger] objects[j],
        )
}

/// True when `sorted` holds the sprites of `objects` from near to far, those
/// at one depth in the order they have in `objects`.
pub open spec fn is_depth_order_of(sorted: Seq<GameObject>, objects: Seq<GameObject>) -> bool {
    &&& sorted.len() == objects.len()
    &&& is_sorted_by_depth(sorted)
    &&& forall|key: int| #[trigger] sorted.filter(at_depth(key)) == objects.filter(at_depth(key))
}

/// Sorts with `sort_by_key` of std, by the depth key of each sprite. The sort
/// is stable: afterwards the sprites stand from near to far, and those at one
/// depth stand in the order they had.
#[verifier::external_body]
fn sort_by_depth(objects: &mut Vec<GameObject>)
    ensures
        is_depth_order_of(final(objects)@, old(objects)@),
{
    objects.sort_by_key(|object| object.position.z.key());
}

/// Sorts the sprites into the three passes of a frame, each from near to
/// far: the world, the sky box and the clouds, in this order. Every sprite is
/// in one of the passes.
pub fn get_sorted_render_objects(game_objects: &Vec<GameObject>) -> (r: (
    Vec<GameObject>,
    Vec<GameObject>,
    Vec<GameObject>,
))
    ensures
        is_depth_order_of(r.0@, game_objects@.filter(world_pass())),
        is_depth_order_of(r.1@, game_objects@.filter(sky_pass())),
        is_depth_order_of(r.2@, game_objects@.filter(cloud_pass())),
        r.0@.len() + r.1@.len() + r.2@.len() == game_objects@.len(),
{
    let mut skybox_render_objs: Vec<GameObject> = Vec::new();
    let mut cloud_render_objs: Vec<GameObject> = Vec::new();
    let mut game_render_objs: Vec<GameObject> = Vec::new();
    let mut i: usize = 0;
    proof {
        reveal(Seq::filter);
        assert(game_objects@.take(0).len() == 0);
    }
    while i < game_objects.len()
        invariant
            i <= game_objects@.len(),
            skybox_render_objs@ == game_objects@.take(i as int).filter(sky_pass()),
            cloud_render_objs@ == game_objects@.take(i as int).filter(cloud_pass()),
            game_render_objs@ == game_objects@.take(i as int).filter(world_pass()),
            skybox_render_objs@.len() + cloud_render_objs@.len() + game_render_objs@.len() == i,
        decreases game_objects@.len() - i,
    {
        let game_obj = game_objects[i];
        proof {
            reveal(Seq::filter);
            let next = game_objects@.take(i as int + 1);
            assert(next.drop_last() =~= game_objects@.take(i as int));
            assert(next.last() == game_obj);
        }
        if matches!(game_obj.object_type, GameObjectType::Skybox) {
            skybox_render_objs.push(game_obj);
        } else if matches!(game_obj.object_type, GameObjectType::Cloud) {
            cloud_render_objs.push(game_obj);
        } else {
            game_render_objs.push(game_obj);
        }
        i = i + 1;
    }
    proof {
        assert(game_objects@.take(i as int) =~= game_objects@);
    }
    sort_by_depth(&mut skybox_render_objs);
    sort_by_depth(&mut cloud_render_objs);
    sort_by_depth(&mut game_render_objs);
    (game_render_objs, skybox_render_objs, cloud_render_objs)
}

/// The most frame times that the window holds.
pub const FRAME_TIME_WINDOW: usize = 11;

/// The number of frames that one frame time is averaged over.
pub const FRAMES_PER_SAMPLE: u32 = 17;

/// The window after `sample` was recorded: the sample comes last, and when
/// the window was full, its oldest sample has left.
pub open spec fn window_after(window: Seq<KbFloat>, sample: KbFloat) -> Seq<KbFloat> {
    if window.len() > 10 {
        window.subrange(1, window.len() as int).push(sample)
    } else {
        window.push(sample)
    }
}

/// The frame times that the frame rate is averaged over. Every 17th frame
/// the average time of the frames since the last sample is recorded; the
/// window keeps the newest 11 samples.
pub struct KbFrameTimes {
    frame_times: Vec<KbFloat>,
    frame_count: u32,
}

impl KbFrameTimes {
    /// The recorded samples, oldest first.
    pub closed spec fn samples(&self) -> Seq<KbFloat> {
        self.frame_times@
    }

    /// The frames counted since the last sample.
    pub closed spec fn frames(&self) -> u32 {
        self.frame_count
    }

    /// Fewer than 17 frames are counted.
    pub open spec fn wf(&self) -> bool {
        self.frames() < FRAMES_PER_SAMPLE
    }

    pub fn new() -> (r: Self)
        ensures
            r.wf(),
            r.samples() == Seq::<KbFloat>::empty(),
            r.frames() == 0,
    {
        KbFrameTimes { frame_times: Vec::new(), frame_count: 0 }
    }

    /// The recorded samples, oldest first.
    pub fn frame_times(&self) -> (r: &Vec<KbFloat>)
        ensures
            r@ == self.samples(),
    {
        &self.frame_times
    }

    /// Counts a frame. On every 17th frame a sample is due: the count is
    /// returned, for the caller to divide the elapsed time by, and starts
    /// again from 0.
    pub fn count_frame(&mut self) -> (due: Option<u32>)
        requires
            old(self).wf(),
        ensures
            final(self).wf(),
            final(self).samples() == old(self).samples(),
            old(self).frames() + 1 < FRAMES_PER_SAMPLE ==> due is None && final(self).frames()
                == old(self).frames() + 1,
            old(self).frames() + 1 == FRAMES_PER_SAMPLE ==> due == Some(FRAMES_PER_SAMPLE)
                && final(self).frames() == 0,
    {
        self.frame_count = self.frame_count + 1;
        if self.frame_count > 16 {
            let frames = self.frame_count;
            self.frame_count = 0;
            Some(frames)
        } else {
            None
        }
    }

    /// Records the average frame time `sample`.
    pub fn record(&mut self, sample: KbFloat)
        ensures
            final(self).samples() == window_after(old(self).samples(), sample),
            final(self).frames() == old(self).frames(),
    {
        if self.frame_times.len() > 10 {
            self.frame_times.remove(0);
        }
        self.frame_times.push(sample);
        assert(self.frame_times@ =~= window_after(old(self).frame_times@, sample));
    }
}

/// A window of at most 11 samples holds at most 11 after another is recorded,
/// and ends with that one.
pub proof fn lemma_window_is_bounded(window: Seq<KbFloat>, sample: KbFloat)
    requires
        window.len() <= FRAME_TIME_WINDOW,
    ensures
        window_after(window, sample).len() <= FRAME_TIME_WINDOW,
        window_after(window, sample).len() >= 1,
        window_after(window, sample).last() == sample,
{
}

} // verus!
