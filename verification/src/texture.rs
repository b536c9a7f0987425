use vstd::prelude::*;

verus! {

/// What a frame does about the texture the 3D scene is rendered into.
#[derive(Clone, Copy, Debug, PartialEq, Eq, Structural)]
pub enum TexturePlan {
    /// A texture of the frame's size is registered already: draw into it.
    Reuse,
    /// The scene has no camera yet: leave everything as it is.
    NoCamera,
    /// The scene has no store of manual texture views: leave everything as it is.
    NoTextureViews,
    /// Release the old texture and view, if any, and create ones of the new size.
    Rebuild,
}

/// Whether a frame of this size has anything to draw; frames with a zero
/// width or height are skipped.
pub fn frame_has_area(width: u32, height: u32) -> (b: bool)
    ensures
        b == (width != 0 && height != 0),
{
    width != 0 && height != 0
}

/// The render target of the 3D scene: the texture registered with the user
/// interface (a handle of type `T`), the texture view the camera draws into
/// (a handle of type `V`), and the size they were made for.
pub struct TextureTarget<T, V> {
    pub last_texture_size: (u32, u32),
    pub texture_handle: Option<T>,
    pub manual_texture_view_handle: Option<V>,
    /// Every texture recorded by `attach` so far, oldest first.
    pub registered: Ghost<Seq<T>>,
    /// Every texture handed out by `take_stale` for release so far, oldest first.
    pub released: Ghost<Seq<T>>,
}

impl<T, V> TextureTarget<T, V> {
    /// The texture registered now, as a sequence of none or one.
    pub open spec fn live(self) -> Seq<T> {
        match self.texture_handle {
            Some(t) => seq![t],
            None => Seq::empty(),
        }
    }

    /// The history is consistent: the textures registered so far are those
    /// released so far, in the same order, followed by the one registered now.
    pub open spec fn wf(self) -> bool {
        self.registered@ == self.released@ + self.live()
    }

    /// The plan for a frame of the given size, given whether the scene has a
    /// camera and a store of manual texture views.
    pub open spec fn planned(self, width: u32, height: u32, camera_present: bool, views_present: bool) -> TexturePlan {
        if self.texture_handle is Some && self.last_texture_size == (width, height) {
            TexturePlan::Reuse
        } else if !camera_present {
            TexturePlan::NoCamera
        } else if !views_present {
            TexturePlan::NoTextureViews
        } else {
            TexturePlan::Rebuild
        }
    }

    /// This target after a texture and a view of the given size were made
    /// and the camera was pointed at the view.
    pub open spec fn attached(self, width: u32, height: u32, texture: T, view: V) -> Self {
        TextureTarget {
            last_texture_size: (width, height),
            texture_handle: Some(texture),
            manual_texture_view_handle: Some(view),
            registered: Ghost(self.registered@.push(texture)),
            released: self.released,
        }
    }

    /// No texture yet.
    pub fn new() -> (t: Self)
        ensures
            t.last_texture_size == (0u32, 0u32),
            t.texture_handle is None,
            t.manual_texture_view_handle is None,
            t.registered@ == Seq::<T>::empty(),
            t.released@ == Seq::<T>::empty(),
            t.wf(),
    {
        TextureTarget {
            last_texture_size: (0, 0),
            texture_handle: None,
            manual_texture_view_handle: None,
            registered: Ghost(Seq::empty()),
            released: Ghost(Seq::empty()),
        }
    }

    /// Decides what a frame of the given size does about the texture.
    pub fn plan(&self, width: u32, height: u32, camera_present: bool, views_present: bool) -> (p: TexturePlan)
        ensures
            p == self.planned(width, height, camera_present, views_present),
            (p == TexturePlan::Reuse) == (self.texture_handle is Some && self.last_texture_size.0 == width
                && self.last_texture_size.1 == height),
            camera_present && views_present ==> (p == TexturePlan::Reuse || p == TexturePlan::Rebuild),
            p == TexturePlan::NoCamera ==> !camera_present,
            p == TexturePlan::NoTextureViews ==> camera_present && !views_present,
    {
        let same_size = self.last_texture_size.0 == width && self.last_texture_size.1 == height;
        if self.texture_handle.is_some() && same_size {
            TexturePlan::Reuse
        } else if !camera_present {
            TexturePlan::NoCamera
        } else if !views_present {
            TexturePlan::NoTextureViews
        } else {
            TexturePlan::Rebuild
        }
    }

    /// Hands out the old texture and view to be released, and forgets them.
    pub fn take_stale(&mut self) -> (stale: (Option<T>, Option<V>))
        requires
            old(self).wf(),
        ensures
            stale == (old(self).texture_handle, old(self).manual_texture_view_handle),
            final(self).texture_handle is None,
            final(self).manual_texture_view_handle is None,
            final(self).last_texture_size == old(self).last_texture_size,
            final(self).registered == old(self).registered,
            final(self).released@ == old(self).released@ + old(self).live(),
            final(self).wf(),
    {
        self.released = Ghost(self.released@ + self.live());
        let texture = self.texture_handle.take();
        let view = self.manual_texture_view_handle.take();
        (texture, view)
    }

    /// Records the new texture and view once the camera draws into the view;
    /// the old texture, if any, must have been handed out for release first.
    pub fn attach(&mut self, width: u32, height: u32, texture: T, view: V)
        requires
            old(self).wf(),
            old(self).texture_handle is None,
        ensures
            *final(self) == old(self).attached(width, height, texture, view),
            final(self).wf(),
    {
        self.registered = Ghost(self.registered@.push(texture));
        self.last_texture_size = (width, height);
        self.manual_texture_view_handle = Some(view);
        self.texture_handle = Some(texture);
    }
}

impl<T: Copy, V> TextureTarget<T, V> {
    /// The texture the user interface shows for this frame, if any.
    pub fn current_texture(&self) -> (t: Option<T>)
        ensures
            t == self.texture_handle,
    {
        match &self.texture_handle {
            Some(t) => Some(*t),
            None => None,
        }
    }
}

/// Once a texture of some size is attached, every frame of that size reuses
/// it, whatever the scene holds; a frame of any other size does not.
pub proof fn lemma_texture_reused_until_resize<T, V>(
    target: TextureTarget<T, V>,
    width: u32,
    height: u32,
    texture: T,
    view: V,
    other_width: u32,
    other_height: u32,
    camera_present: bool,
    views_present: bool,
)
    ensures
        target.attached(width, height, texture, view).planned(width, height, camera_present, views_present)
            == TexturePlan::Reuse,
        (other_width, other_height) != (width, height) ==> target.attached(width, height, texture, view).planned(
            other_width,
            other_height,
            camera_present,
            views_present,
        ) != TexturePlan::Reuse,
{
}

/// What a frame's plan means in terms of the frame and the target: the
/// texture is reused exactly when one is held and the frame has its width and
/// its height; with a camera and a view store present every other frame
/// rebuilds it, so a resize in either dimension alone re-creates the texture
/// at the new size; a frame is skipped for want of a camera only when there
/// is none, and for want of a view store only when there is a camera but no
/// store.
pub proof fn lemma_plan_meaning<T, V>(
    target: TextureTarget<T, V>,
    width: u32,
    height: u32,
    camera_present: bool,
    views_present: bool,
)
    ensures
        (target.planned(width, height, camera_present, views_present) == TexturePlan::Reuse) == (
        target.texture_handle is Some && target.last_texture_size.0 == width && target.last_texture_size.1
            == height),
        target.texture_handle is Some && (target.last_texture_size.0 != width || target.last_texture_size.1
            != height) && camera_present && views_present ==> target.planned(
            width,
            height,
            camera_present,
            views_present,
        ) == TexturePlan::Rebuild,
        camera_present && views_present ==> (target.planned(width, height, camera_present, views_present)
            == TexturePlan::Reuse || target.planned(width, height, camera_present, views_present)
            == TexturePlan::Rebuild),
        target.planned(width, height, camera_present, views_present) == TexturePlan::NoCamera
            ==> !camera_present,
        target.planned(width, height, camera_present, views_present) == TexturePlan::NoTextureViews
            ==> camera_present && !views_present,
        target.planned(width, height, camera_present, views_present) == TexturePlan::Rebuild
            ==> camera_present && views_present,
{
}

/// Release comes before registration: in a consistent target every texture
/// registered so far but the current one has been handed out for release,
/// once each and in the order of registration, so at most one texture is
/// registered at a time, and that one is the current texture.
pub proof fn lemma_one_registered_texture<T, V>(target: TextureTarget<T, V>)
    requires
        target.wf(),
    ensures
        target.registered@.len() <= target.released@.len() + 1,
        forall|i: int| 0 <= i < target.released@.len() ==> #[trigger] target.released@[i] == target.registered@[i],
        target.texture_handle matches Some(t) ==> target.registered@.len() == target.released@.len() + 1
            && target.registered@.last() == t,
        target.texture_handle is None ==> target.registered@ == target.released@,
{
    assert forall|i: int| 0 <= i < target.released@.len() implies #[trigger] target.released@[i]
        == target.registered@[i] by {
        assert((target.released@ + target.live())[i] == target.released@[i]);
    }
    if target.texture_handle is None {
        assert(target.released@ + target.live() == target.released@);
    }
}

/// A target without a texture never reuses one: its first frame with a
/// camera and a view store rebuilds.
pub proof fn lemma_first_frame_rebuilds<T, V>(target: TextureTarget<T, V>, width: u32, height: u32)
    requires
        target.texture_handle is None,
    ensures
        target.planned(width, height, true, true) == TexturePlan::Rebuild,
{
}

} // verus!
