//! The vision backend: the looks of the elements that can be drawn, the
//! surface they are drawn on, and the renderer.
use std::collections::HashMap;
use vstd::prelude::*;
use crate::drawer::{spec_frame, FramePlan, ThreeDrawer};
use crate::math::Mat4;
use crate::surface::SurfaceConfiguration;
use crate::three::ThreeLook;
use crate::texture::INTERNAL_SIZE;
use crate::view_renderer::{spec_gbuffer, GBuffer};

verus! {

broadcast use vstd::std_specs::hash::group_hash_axioms;

/// The looks of the elements `id_v` that `body_mp` knows, in the order of
/// `id_v`. An id without a look is passed over; an id that occurs twice is
/// drawn twice.
pub open spec fn looks_of(id_v: Seq<u64>, body_mp: Map<u64, ThreeLook>) -> Seq<ThreeLook>
    decreases id_v.len(),
{
    if id_v.len() == 0 {
        Seq::empty()
    } else if body_mp.contains_key(id_v.last()) {
        looks_of(id_v.drop_last(), body_mp).push(body_mp[id_v.last()])
    } else {
        looks_of(id_v.drop_last(), body_mp)
    }
}

/// The vision backend.
pub struct VisionManager {
    config: SurfaceConfiguration,
    three_drawer: ThreeDrawer,
    body_mp: HashMap<u64, ThreeLook>,
}

impl VisionManager {
    /// The looks by element id.
    pub closed spec fn spec_body_mp(&self) -> Map<u64, ThreeLook> {
        self.body_mp@
    }

    /// The configuration of the surface.
    pub closed spec fn spec_config(&self) -> SurfaceConfiguration {
        self.config
    }

    /// The renderer.
    pub closed spec fn spec_drawer(&self) -> ThreeDrawer {
        self.three_drawer
    }

    /// A backend without elements, for a surface configured as `config` and
    /// a camera with projection `proj_m`. The renderer is built for the
    /// surface's format.
    pub fn new(config: SurfaceConfiguration, proj_m: Mat4) -> (vm: VisionManager)
        ensures
            vm.spec_config() == config,
            vm.spec_body_mp() == Map::<u64, ThreeLook>::empty(),
            vm.spec_drawer().wf(),
            vm.spec_drawer().spec_format() == config.format,
            vm.spec_drawer().spec_proj_m() == proj_m,
            vm.spec_drawer().spec_view_m() == Mat4::spec_identity(),
            vm.spec_drawer().spec_gbuffer() == spec_gbuffer(INTERNAL_SIZE, INTERNAL_SIZE),
    {
        VisionManager {
            config,
            three_drawer: ThreeDrawer::new(config.format, proj_m),
            body_mp: HashMap::new(),
        }
    }

    /// The configuration of the surface.
    pub fn config(&self) -> (config: SurfaceConfiguration)
        ensures
            config == self.spec_config(),
    {
        self.config
    }

    /// The renderer.
    pub fn three_drawer(&self) -> (drawer: &ThreeDrawer)
        ensures
            *drawer == self.spec_drawer(),
    {
        &self.three_drawer
    }

    /// The camera's view matrix.
    pub fn view_m(&self) -> (m: &Mat4)
        ensures
            *m == self.spec_drawer().spec_view_m(),
    {
        self.three_drawer.view_m()
    }

    /// The camera's view matrix, for writing. Nothing else of the backend
    /// changes with it.
    pub fn view_m_mut(&mut self) -> (m: &mut Mat4)
        ensures
            *m == old(self).spec_drawer().spec_view_m(),
            final(self).spec_drawer().spec_view_m() == *final(m),
            final(self).spec_drawer().spec_proj_m() == old(self).spec_drawer().spec_proj_m(),
            final(self).spec_drawer().spec_gbuffer() == old(self).spec_drawer().spec_gbuffer(),
            final(self).spec_drawer().spec_format() == old(self).spec_drawer().spec_format(),
            final(self).spec_drawer().wf() == old(self).spec_drawer().wf(),
            final(self).spec_config() == old(self).spec_config(),
            final(self).spec_body_mp() == old(self).spec_body_mp(),
    {
        self.three_drawer.view_m_mut()
    }

    /// The look of element `id`, if it has one.
    pub fn look(&self, id: u64) -> (look: Option<ThreeLook>)
        ensures
            look == if self.spec_body_mp().contains_key(id) {
                Some(self.spec_body_mp()[id])
            } else {
                None
            },
    {
        match self.body_mp.get(&id) {
            Some(look) => Some(*look),
            None => None,
        }
    }

    /// Takes a new size of the surface, between two frames. If neither side
    /// is zero, the configuration takes the size and the G-buffer is replaced
    /// by one of that size; the one held before is handed back for release.
    /// Otherwise nothing changes. The elements and the camera stay as they
    /// are.
    pub fn resize(&mut self, width: u32, height: u32) -> (released: Option<GBuffer>)
        ensures
            final(self).spec_config() == old(self).spec_config().spec_resize(width, height),
            final(self).spec_body_mp() == old(self).spec_body_mp(),
            final(self).spec_drawer().spec_view_m() == old(self).spec_drawer().spec_view_m(),
            final(self).spec_drawer().spec_proj_m() == old(self).spec_drawer().spec_proj_m(),
            final(self).spec_drawer().spec_format() == old(self).spec_drawer().spec_format(),
            old(self).spec_drawer().wf() ==> final(self).spec_drawer().wf(),
            width > 0 && height > 0 ==> released == Some(old(self).spec_drawer().spec_gbuffer())
                && final(self).spec_drawer().spec_gbuffer() == spec_gbuffer(width, height),
            width == 0 || height == 0 ==> released.is_none()
                && final(self).spec_drawer().spec_gbuffer() == old(self).spec_drawer().spec_gbuffer(),
    {
        self.config.resize(width, height);
        self.three_drawer.resize(width, height)
    }

    /// Gives element `vnode_id` the look `look`, in place of any look it had,
    /// and hands back the element's handle, which is its id.
    pub fn create_element(&mut self, vnode_id: u64, look: ThreeLook) -> (handle: u64)
        ensures
            handle == vnode_id,
            final(self).spec_body_mp() == old(self).spec_body_mp().insert(vnode_id, look),
            final(self).spec_config() == old(self).spec_config(),
            final(self).spec_drawer() == old(self).spec_drawer(),
    {
        self.body_mp.insert(vnode_id, look);
        vnode_id
    }

    /// Replaces the look of element `id` if it has one; an element without a
    /// look stays without. Returns whether a look was replaced.
    pub fn update_element(&mut self, id: u64, look: ThreeLook) -> (updated: bool)
        ensures
            updated == old(self).spec_body_mp().contains_key(id),
            final(self).spec_body_mp() == if updated {
                old(self).spec_body_mp().insert(id, look)
            } else {
                old(self).spec_body_mp()
            },
            final(self).spec_config() == old(self).spec_config(),
            final(self).spec_drawer() == old(self).spec_drawer(),
    {
        if self.body_mp.contains_key(&id) {
            self.body_mp.insert(id, look);
            true
        } else {
            false
        }
    }

    /// Takes the look of element `id` away.
    pub fn delete_element(&mut self, id: u64)
        ensures
            final(self).spec_body_mp() == old(self).spec_body_mp().remove(id),
            final(self).spec_config() == old(self).spec_config(),
            final(self).spec_drawer() == old(self).spec_drawer(),
    {
        self.body_mp.remove(&id);
    }

    /// Starts the list of what the next frame shows: empty.
    pub fn render_pass(&self) -> (rp: RenderPass)
        ensures
            rp@ == Seq::<u64>::empty(),
    {
        RenderPass { id_v: Vec::new() }
    }
}

/// The elements that a frame shows, in the order in which they were named.
pub struct RenderPass {
    id_v: Vec<u64>,
}

impl View for RenderPass {
    type V = Seq<u64>;

    closed spec fn view(&self) -> Seq<u64> {
        self.id_v@
    }
}

impl RenderPass {
    /// Names one more element to show.
    pub fn push_element(&mut self, id: u64)
        ensures
            final(self)@ == old(self)@.push(id),
    {
        self.id_v.push(id);
    }

    /// Plans the frame that shows the named elements: those among them that
    /// have a look, in the order in which they were named, as the scene of the
    /// backend's renderer. `ratio` is the surface's width divided by its height,
    /// as a single-precision bit pattern.
    pub fn render(self, vm: &VisionManager, ratio: u32) -> (plan: FramePlan)
        ensures
            plan@ == spec_frame(
                vm.spec_drawer().spec_gbuffer(),
                vm.spec_drawer().spec_view_m(),
                vm.spec_drawer().spec_proj_m(),
                looks_of(self@, vm.spec_body_mp()),
                ratio,
            ),
    {
        let mut look_v: Vec<ThreeLook> = Vec::new();
        let mut i: usize = 0;
        while i < self.id_v.len()
            invariant
                i <= self.id_v.len(),
                look_v@ == looks_of(self.id_v@.subrange(0, i as int), vm.body_mp@),
            decreases self.id_v.len() - i,
        {
            proof {
                let next = self.id_v@.subrange(0, i + 1);
                assert(next.drop_last() =~= self.id_v@.subrange(0, i as int));
            }
            match vm.body_mp.get(&self.id_v[i]) {
                Some(look) => {
                    look_v.push(*look);
                },
                None => {},
            }
            i = i + 1;
        }
        assert(self.id_v@.subrange(0, i as int) =~= self.id_v@);
        vm.three_drawer.render(&look_v, ratio)
    }
}

} // verus!
