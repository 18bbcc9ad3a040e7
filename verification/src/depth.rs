//! What a depth attachment holds after a pass: the reference semantics of
//! the depth state that the pipelines set, on the CPU.
//!
//! A depth is the bit pattern of a single-precision value. Depths that reach
//! an attachment lie in `[0.0, 1.0]`, and for such values the order of the bit
//! patterns as unsigned integers is the order of the values: the depth test
//! compares patterns. A mesh stands here for the fragments that the rasteriser
//! makes of it in light space; making them is the GPU's work.
use vstd::prelude::*;
use crate::light_mapping::{
    lemma_shadow_batches, spec_shadow_pass, PassState, ShadowBatch, ShadowPass, ShadowPassView,
};
use crate::math::Mat4;
use crate::pipeline::{CompareFunction, DepthStencilState};
use crate::texture::{DEPTH_FAR, INTERNAL_SIZE};
use crate::three::Body;

verus! {

/// One fragment of a rasterised mesh: a texel and the depth of the surface
/// there.
#[derive(Clone, Copy, Debug, PartialEq, Eq, Structural)]
pub struct Fragment {
    pub x: u32,
    pub y: u32,
    pub depth: u32,
}

/// Whether a fragment of depth `incoming` passes the depth test against the
/// depth `stored`.
pub open spec fn spec_depth_test(compare: CompareFunction, incoming: u32, stored: u32) -> bool {
    match compare {
        CompareFunction::Never => false,
        CompareFunction::Less => incoming < stored,
        CompareFunction::Equal => incoming == stored,
        CompareFunction::LessEqual => incoming <= stored,
        CompareFunction::Greater => incoming > stored,
        CompareFunction::NotEqual => incoming != stored,
        CompareFunction::GreaterEqual => incoming >= stored,
        CompareFunction::Always => true,
    }
}

/// Whether a fragment of depth `incoming` passes the depth test against the
/// depth `stored`.
pub fn depth_test(compare: CompareFunction, incoming: u32, stored: u32) -> (pass: bool)
    ensures
        pass == spec_depth_test(compare, incoming, stored),
{
    match compare {
        CompareFunction::Never => false,
        CompareFunction::Less => incoming < stored,
        CompareFunction::Equal => incoming == stored,
        CompareFunction::LessEqual => incoming <= stored,
        CompareFunction::Greater => incoming > stored,
        CompareFunction::NotEqual => incoming != stored,
        CompareFunction::GreaterEqual => incoming >= stored,
        CompareFunction::Always => true,
    }
}

/// Whether a fragment lies on texel `t` of an attachment of `width` by
/// `height` texels, rows first.
pub open spec fn hits(f: Fragment, width: u32, height: u32, t: int) -> bool {
    f.x < width && f.y < height && t == f.y * width + f.x
}

/// The attachment of `width` by `height` texels after a clear: the far plane
/// everywhere.
pub open spec fn cleared(width: u32, height: u32) -> Seq<u32> {
    Seq::new((width * height) as nat, |t: int| DEPTH_FAR)
}

/// The attachment after one fragment: the fragment's depth is stored at its
/// texel if it lies inside, passes the test and depth is written; otherwise
/// nothing changes.
pub open spec fn apply_fragment(
    texels: Seq<u32>,
    width: u32,
    height: u32,
    state: DepthStencilState,
    f: Fragment,
) -> Seq<u32> {
    let t = f.y * width + f.x;
    if f.x < width && f.y < height && t < texels.len() && state.depth_write_enabled
        && spec_depth_test(state.depth_compare, f.depth, texels[t]) {
        texels.update(t, f.depth)
    } else {
        texels
    }
}

/// The attachment after the fragments of one draw call, taken in order.
pub open spec fn apply_fragments(
    texels: Seq<u32>,
    width: u32,
    height: u32,
    state: DepthStencilState,
    frag_v: Seq<Fragment>,
) -> Seq<u32>
    decreases frag_v.len(),
{
    if frag_v.len() == 0 {
        texels
    } else {
        apply_fragment(
            apply_fragments(texels, width, height, state, frag_v.drop_last()),
            width,
            height,
            state,
            frag_v.last(),
        )
    }
}

/// The attachment after one batch: cleared first if the batch clears, then
/// drawn into.
pub open spec fn apply_batch(
    texels: Seq<u32>,
    width: u32,
    height: u32,
    state: DepthStencilState,
    pass_state: PassState,
    frag_v: Seq<Fragment>,
) -> Seq<u32> {
    apply_fragments(
        match pass_state {
            PassState::Clear => cleared(width, height),
            PassState::Accumulate => texels,
        },
        width,
        height,
        state,
        frag_v,
    )
}

/// The fragments that batch `k` draws: those of mesh `k`, none in a batch
/// without a mesh.
pub open spec fn batch_fragments(caster_v: Seq<Seq<Fragment>>, k: int) -> Seq<Fragment> {
    if 0 <= k < caster_v.len() {
        caster_v[k]
    } else {
        Seq::empty()
    }
}

/// The attachment after the first `n` batches of a pass, where `caster_v[k]`
/// is what mesh `k` rasterises to and `init` is what the attachment held
/// before the pass.
pub open spec fn replay(
    init: Seq<u32>,
    width: u32,
    height: u32,
    state: DepthStencilState,
    batch_v: Seq<ShadowBatch>,
    caster_v: Seq<Seq<Fragment>>,
    n: int,
) -> Seq<u32>
    decreases n,
{
    if n <= 0 {
        init
    } else {
        apply_batch(
            replay(init, width, height, state, batch_v, caster_v, n - 1),
            width,
            height,
            state,
            batch_v[n - 1].state,
            batch_fragments(caster_v, n - 1),
        )
    }
}

/// The shadow map of a pass when all its batches have run.
pub open spec fn shadow_depth(
    init: Seq<u32>,
    state: DepthStencilState,
    pass: ShadowPassView,
    caster_v: Seq<Seq<Fragment>>,
) -> Seq<u32> {
    replay(
        init,
        pass.depth.width,
        pass.depth.height,
        state,
        pass.batch_v,
        caster_v,
        pass.batch_v.len() as int,
    )
}

/// A depth attachment on the CPU.
pub struct DepthBuffer {
    width: u32,
    height: u32,
    texel_v: Vec<u32>,
}

impl View for DepthBuffer {
    type V = Seq<u32>;

    closed spec fn view(&self) -> Seq<u32> {
        self.texel_v@
    }
}

impl DepthBuffer {
    /// Width in texels.
    pub closed spec fn spec_width(&self) -> u32 {
        self.width
    }

    /// Height in texels.
    pub closed spec fn spec_height(&self) -> u32 {
        self.height
    }

    /// Whether the buffer holds one depth per texel, and no more texels than
    /// can be counted.
    pub open spec fn wf(&self) -> bool {
        &&& self@.len() == self.spec_width() * self.spec_height()
        &&& self.spec_width() * self.spec_height() <= usize::MAX
    }

    /// A new attachment of `width` by `height` texels, zeroed as a fresh
    /// texture is. A pass clears it before it draws.
    pub fn new(width: u32, height: u32) -> (buffer: DepthBuffer)
        requires
            width * height <= usize::MAX,
        ensures
            buffer.wf(),
            buffer.spec_width() == width,
            buffer.spec_height() == height,
            buffer@ == Seq::new((width * height) as nat, |t: int| 0u32),
    {
        let count = width as usize * height as usize;
        let mut texel_v: Vec<u32> = Vec::new();
        let mut t: usize = 0;
        while t < count
            invariant
                t <= count,
                texel_v@.len() == t,
                forall|s: int| 0 <= s < t ==> texel_v@[s] == 0u32,
            decreases count - t,
        {
            texel_v.push(0);
            t = t + 1;
        }
        DepthBuffer { width, height, texel_v }
    }

    /// Width in texels.
    pub fn width(&self) -> (width: u32)
        ensures
            width == self.spec_width(),
    {
        self.width
    }

    /// Height in texels.
    pub fn height(&self) -> (height: u32)
        ensures
            height == self.spec_height(),
    {
        self.height
    }

    /// The depth stored at column `x` of row `y`.
    pub fn texel(&self, x: u32, y: u32) -> (depth: u32)
        requires
            self.wf(),
            x < self.spec_width(),
            y < self.spec_height(),
        ensures
            depth == self@[y * self.spec_width() + x],
    {
        self.texel_v[texel_index(self.width, self.height, x, y)]
    }

    /// Runs one batch on the attachment: clears it to the far plane if the
    /// batch clears, then takes the fragments in order through the depth test.
    pub fn run_batch(
        &mut self,
        state: &DepthStencilState,
        pass_state: PassState,
        frag_v: &Vec<Fragment>,
    )
        requires
            old(self).wf(),
        ensures
            final(self).wf(),
            final(self).spec_width() == old(self).spec_width(),
            final(self).spec_height() == old(self).spec_height(),
            final(self)@ == apply_batch(
                old(self)@,
                old(self).spec_width(),
                old(self).spec_height(),
                *state,
                pass_state,
                frag_v@,
            ),
    {
        let width = self.width;
        let height = self.height;
        match pass_state {
            PassState::Clear => {
                let mut t: usize = 0;
                while t < self.texel_v.len()
                    invariant
                        self.width == width,
                        self.height == height,
                        self.texel_v@.len() == width * height,
                        t <= self.texel_v@.len(),
                        forall|s: int| 0 <= s < t ==> self.texel_v@[s] == DEPTH_FAR,
                    decreases self.texel_v@.len() - t,
                {
                    self.texel_v[t] = DEPTH_FAR;
                    t = t + 1;
                }
                assert(self.texel_v@ =~= cleared(width, height));
            },
            PassState::Accumulate => {},
        }
        let ghost start = self.texel_v@;
        let mut i: usize = 0;
        while i < frag_v.len()
            invariant
                i <= frag_v.len(),
                self.width == width,
                self.height == height,
                self.texel_v@.len() == width * height,
                start.len() == width * height,
                width * height <= usize::MAX,
                self.texel_v@ == apply_fragments(
                    start,
                    width,
                    height,
                    *state,
                    frag_v@.subrange(0, i as int),
                ),
            decreases frag_v.len() - i,
        {
            let f = frag_v[i];
            proof {
                let next = frag_v@.subrange(0, i + 1);
                assert(next.drop_last() =~= frag_v@.subrange(0, i as int));
            }
            if f.x < width && f.y < height {
                let t = texel_index(width, height, f.x, f.y);
                if state.depth_write_enabled && depth_test(
                    state.depth_compare,
                    f.depth,
                    self.texel_v[t],
                ) {
                    self.texel_v[t] = f.depth;
                }
            }
            i = i + 1;
        }
        assert(frag_v@.subrange(0, i as int) =~= frag_v@);
    }
}

/// The fragment lists of a list of rasterised meshes.
pub open spec fn caster_views(caster_v: Seq<Vec<Fragment>>) -> Seq<Seq<Fragment>> {
    Seq::new(caster_v.len(), |k: int| caster_v[k]@)
}

/// Runs a shadow pass on a fresh attachment of the size of the pass's shadow
/// map, batch by batch, where `caster_v[k]` holds the fragments of the mesh
/// that batch `k` draws. `state` is the depth state of the pipeline.
pub fn run_shadow_pass(state: &DepthStencilState, pass: &ShadowPass, caster_v: &Vec<Vec<Fragment>>)
    -> (buffer: DepthBuffer)
    requires
        pass.depth.width * pass.depth.height <= usize::MAX,
    ensures
        buffer.wf(),
        buffer.spec_width() == pass.depth.width,
        buffer.spec_height() == pass.depth.height,
        buffer@ == shadow_depth(
            Seq::new((pass.depth.width * pass.depth.height) as nat, |t: int| 0u32),
            *state,
            pass@,
            caster_views(caster_v@),
        ),
{
    let mut buffer = DepthBuffer::new(pass.depth.width, pass.depth.height);
    let ghost init = buffer@;
    let none: Vec<Fragment> = Vec::new();
    let mut k: usize = 0;
    while k < pass.batch_v.len()
        invariant
            k <= pass.batch_v.len(),
            buffer.wf(),
            buffer.spec_width() == pass.depth.width,
            buffer.spec_height() == pass.depth.height,
            none@ == Seq::<Fragment>::empty(),
            buffer@ == replay(
                init,
                pass.depth.width,
                pass.depth.height,
                *state,
                pass@.batch_v,
                caster_views(caster_v@),
                k as int,
            ),
        decreases pass.batch_v.len() - k,
    {
        let batch = pass.batch_v[k];
        if k < caster_v.len() {
            buffer.run_batch(state, batch.state, &caster_v[k]);
        } else {
            buffer.run_batch(state, batch.state, &none);
        }
        k = k + 1;
    }
    buffer
}

/// Whether a depth state keeps the nearest surface: depth is written, and a
/// fragment passes when it is nearer than what is stored (or as near).
pub open spec fn keeps_nearest(state: DepthStencilState) -> bool {
    state.depth_write_enabled && (state.depth_compare == CompareFunction::LessEqual
        || state.depth_compare == CompareFunction::Less)
}

/// Whether `d` is the depth of the nearest surface at texel `t` among the
/// first `n` meshes: the least of the far plane and the depths of all their
/// fragments on that texel.
pub open spec fn is_nearest(
    d: u32,
    caster_v: Seq<Seq<Fragment>>,
    n: int,
    width: u32,
    height: u32,
    t: int,
) -> bool {
    &&& d <= DEPTH_FAR
    &&& forall|k: int, j: int|
        0 <= k < n && k < caster_v.len() && 0 <= j < caster_v[k].len() && hits(
            #[trigger] caster_v[k][j],
            width,
            height,
            t,
        ) ==> d <= caster_v[k][j].depth
    &&& (d == DEPTH_FAR || exists|k: int, j: int|
        0 <= k < n && k < caster_v.len() && 0 <= j < caster_v[k].len() && hits(
            #[trigger] caster_v[k][j],
            width,
            height,
            t,
        ) && caster_v[k][j].depth == d)
}

/// What one draw call leaves at each texel under a state that keeps the
/// nearest surface: the least of what was there and the depths of the draw's
/// fragments on that texel.
pub proof fn lemma_apply_fragments(
    texels: Seq<u32>,
    width: u32,
    height: u32,
    state: DepthStencilState,
    frag_v: Seq<Fragment>,
)
    requires
        keeps_nearest(state),
    ensures
        apply_fragments(texels, width, height, state, frag_v).len() == texels.len(),
        forall|t: int|
            0 <= t < texels.len() ==> (#[trigger] apply_fragments(
                texels,
                width,
                height,
                state,
                frag_v,
            )[t]) <= texels[t],
        forall|t: int, j: int|
            0 <= t < texels.len() && 0 <= j < frag_v.len() && hits(
                #[trigger] frag_v[j],
                width,
                height,
                t,
            ) ==> (#[trigger] apply_fragments(texels, width, height, state, frag_v)[t])
                <= frag_v[j].depth,
        forall|t: int|
            0 <= t < texels.len() ==> (#[trigger] apply_fragments(
                texels,
                width,
                height,
                state,
                frag_v,
            )[t]) == texels[t] || exists|j: int|
                0 <= j < frag_v.len() && hits(#[trigger] frag_v[j], width, height, t)
                    && frag_v[j].depth == apply_fragments(texels, width, height, state, frag_v)[t],
    decreases frag_v.len(),
{
    if frag_v.len() > 0 {
        let head = frag_v.drop_last();
        let mid = apply_fragments(texels, width, height, state, head);
        let out = apply_fragments(texels, width, height, state, frag_v);
        lemma_apply_fragments(texels, width, height, state, head);
        assert forall|t: int, j: int|
            0 <= t < texels.len() && 0 <= j < frag_v.len() && hits(
                #[trigger] frag_v[j],
                width,
                height,
                t,
            ) implies (#[trigger] out[t]) <= frag_v[j].depth by {
            if j < head.len() {
                assert(mid[t] <= head[j].depth);
            }
        }
        assert forall|t: int| 0 <= t < texels.len() implies (#[trigger] out[t]) == texels[t]
            || exists|j: int|
            0 <= j < frag_v.len() && hits(#[trigger] frag_v[j], width, height, t)
                && frag_v[j].depth == out[t] by {
            if out[t] != texels[t] {
                if out[t] == mid[t] {
                    let j = choose|j: int|
                        0 <= j < head.len() && hits(#[trigger] head[j], width, height, t)
                            && head[j].depth == mid[t];
                    assert(frag_v[j] == head[j]);
                } else {
                    assert(hits(frag_v[frag_v.len() - 1], width, height, t));
                }
            }
        }
    }
}

/// What a pass that clears first and accumulates thereafter leaves at each
/// texel after its first `n` batches, whatever the attachment held before:
/// the nearest surface among the meshes drawn so far, or the far plane where
/// none of them lies.
pub proof fn lemma_replay_nearest(
    init: Seq<u32>,
    width: u32,
    height: u32,
    state: DepthStencilState,
    batch_v: Seq<ShadowBatch>,
    caster_v: Seq<Seq<Fragment>>,
    n: int,
)
    requires
        keeps_nearest(state),
        1 <= n <= batch_v.len(),
        batch_v[0].state == PassState::Clear,
        forall|i: int| 1 <= i < batch_v.len() ==> (#[trigger] batch_v[i]).state == PassState::Accumulate,
    ensures
        replay(init, width, height, state, batch_v, caster_v, n).len() == width * height,
        forall|t: int|
            0 <= t < width * height ==> is_nearest(
                #[trigger] replay(init, width, height, state, batch_v, caster_v, n)[t],
                caster_v,
                n,
                width,
                height,
                t,
            ),
    decreases n,
{
    let out = replay(init, width, height, state, batch_v, caster_v, n);
    let frag_v = batch_fragments(caster_v, n - 1);
    if n == 1 {
        let start = cleared(width, height);
        lemma_apply_fragments(start, width, height, state, frag_v);
        assert forall|t: int| 0 <= t < width * height implies is_nearest(
            #[trigger] out[t],
            caster_v,
            n,
            width,
            height,
            t,
        ) by {
            if out[t] != DEPTH_FAR {
                let j = choose|j: int|
                    0 <= j < frag_v.len() && hits(#[trigger] frag_v[j], width, height, t)
                        && frag_v[j].depth == out[t];
            }
        }
    } else {
        let before = replay(init, width, height, state, batch_v, caster_v, n - 1);
        lemma_replay_nearest(init, width, height, state, batch_v, caster_v, n - 1);
        lemma_apply_fragments(before, width, height, state, frag_v);
        assert forall|t: int| 0 <= t < width * height implies is_nearest(
            #[trigger] out[t],
            caster_v,
            n,
            width,
            height,
            t,
        ) by {
            assert forall|k: int, j: int|
                0 <= k < n && k < caster_v.len() && 0 <= j < caster_v[k].len() && hits(
                    #[trigger] caster_v[k][j],
                    width,
                    height,
                    t,
                ) implies out[t] <= caster_v[k][j].depth by {
                if k == n - 1 {
                    assert(frag_v[j] == caster_v[k][j]);
                }
            }
            if out[t] != DEPTH_FAR {
                if out[t] == before[t] {
                    let (k, j) = choose|k: int, j: int|
                        0 <= k < n - 1 && k < caster_v.len() && 0 <= j < caster_v[k].len() && hits(
                            #[trigger] caster_v[k][j],
                            width,
                            height,
                            t,
                        ) && caster_v[k][j].depth == before[t];
                    assert(hits(caster_v[k][j], width, height, t));
                } else {
                    let j = choose|j: int|
                        0 <= j < frag_v.len() && hits(#[trigger] frag_v[j], width, height, t)
                            && frag_v[j].depth == out[t];
                    assert(caster_v[n - 1][j] == frag_v[j]);
                }
            }
        }
    }
}

/// A mesh together with the fragments that the rasteriser makes of it under
/// one light.
pub struct Caster {
    pub body: Body,
    pub frag_v: Seq<Fragment>,
}

/// The meshes of a list of rasterised meshes.
pub open spec fn caster_bodies(caster_v: Seq<Caster>) -> Seq<Body> {
    Seq::new(caster_v.len(), |k: int| caster_v[k].body)
}

/// The fragment lists of a list of rasterised meshes.
pub open spec fn caster_fragments(caster_v: Seq<Caster>) -> Seq<Seq<Fragment>> {
    Seq::new(caster_v.len(), |k: int| caster_v[k].frag_v)
}

/// The shadow map of the light with light-space matrix `light`
/// after its shadow pass over `caster_v`, on an attachment that held `init`.
pub open spec fn shadow_map(
    init: Seq<u32>,
    state: DepthStencilState,
    light: Mat4,
    caster_v: Seq<Caster>,
) -> Seq<u32> {
    shadow_depth(
        init,
        state,
        spec_shadow_pass(light, caster_bodies(caster_v)),
        caster_fragments(caster_v),
    )
}

/// A shadow map holds at every texel the nearest surface to the light among
/// all meshes of the pass, and the far plane where no mesh lies, whatever the
/// attachment held before the pass.
pub proof fn lemma_shadow_map_nearest(
    init: Seq<u32>,
    state: DepthStencilState,
    light: Mat4,
    caster_v: Seq<Caster>,
)
    requires
        keeps_nearest(state),
    ensures
        ({
            let pass = spec_shadow_pass(light, caster_bodies(caster_v));
            let map = shadow_map(init, state, light, caster_v);
            &&& map.len() == pass.depth.width * pass.depth.height
            &&& forall|t: int|
                0 <= t < map.len() ==> is_nearest(
                    #[trigger] map[t],
                    caster_fragments(caster_v),
                    caster_v.len() as int,
                    pass.depth.width,
                    pass.depth.height,
                    t,
                )
        }),
{
    let body_v = caster_bodies(caster_v);
    let pass = spec_shadow_pass(light, body_v);
    let frags = caster_fragments(caster_v);
    let n = pass.batch_v.len() as int;
    lemma_shadow_batches(body_v);
    lemma_replay_nearest(init, pass.depth.width, pass.depth.height, state, pass.batch_v, frags, n);
    let map = shadow_map(init, state, light, caster_v);
    assert forall|t: int| 0 <= t < map.len() implies is_nearest(
        #[trigger] map[t],
        frags,
        caster_v.len() as int,
        pass.depth.width,
        pass.depth.height,
        t,
    ) by {
        if map[t] != DEPTH_FAR {
            let (k, j) = choose|k: int, j: int|
                0 <= k < n && k < frags.len() && 0 <= j < frags[k].len() && hits(
                    #[trigger] frags[k][j],
                    pass.depth.width,
                    pass.depth.height,
                    t,
                ) && frags[k][j].depth == map[t];
        }
    }
}

/// A light whose shadow pass draws no mesh has a shadow map that is the far
/// plane everywhere, whatever the depth state and whatever the attachment
/// held before. Under such a map no fragment is in shadow that does not lie
/// beyond the far plane by more than the bias.
pub proof fn lemma_no_caster_is_far(
    init: Seq<u32>,
    state: DepthStencilState,
    light: Mat4,
)
    ensures
        ({
            let pass = spec_shadow_pass(light, Seq::<Body>::empty());
            let map = shadow_depth(init, state, pass, Seq::<Seq<Fragment>>::empty());
            &&& map == cleared(pass.depth.width, pass.depth.height)
            &&& map.len() == pass.depth.width * pass.depth.height
            &&& forall|t: int| 0 <= t < map.len() ==> #[trigger] map[t] == DEPTH_FAR
            &&& forall|t: int, depth: u32, bias: u32|
                0 <= t < map.len() && within_far(depth, bias) ==> !#[trigger] spec_is_shadowed(
                    depth,
                    map[t],
                    bias,
                )
        }),
{
    let pass = spec_shadow_pass(light, Seq::<Body>::empty());
    let casters = Seq::<Seq<Fragment>>::empty();
    let w = pass.depth.width;
    let h = pass.depth.height;
    assert(replay(init, w, h, state, pass.batch_v, casters, 1) == apply_batch(
        init,
        w,
        h,
        state,
        pass.batch_v[0].state,
        batch_fragments(casters, 0),
    ));
}

/// Rendering the same meshes into one light's shadow map in any order of
/// submission gives the same shadow map, texel for texel: if `b` holds the
/// rasterised meshes of `a` in another order, the two passes leave equal
/// attachments, whatever each attachment held before.
pub proof fn lemma_shadow_map_order_independent(
    init_a: Seq<u32>,
    init_b: Seq<u32>,
    state: DepthStencilState,
    light: Mat4,
    a: Seq<Caster>,
    b: Seq<Caster>,
)
    requires
        keeps_nearest(state),
        a.to_multiset() == b.to_multiset(),
    ensures
        shadow_map(init_a, state, light, a) == shadow_map(
            init_b,
            state,
            light,
            b,
        ),
{
    let map_a = shadow_map(init_a, state, light, a);
    let map_b = shadow_map(init_b, state, light, b);
    let pass_a = spec_shadow_pass(light, caster_bodies(a));
    let w = pass_a.depth.width;
    let h = pass_a.depth.height;
    lemma_shadow_map_nearest(init_a, state, light, a);
    lemma_shadow_map_nearest(init_b, state, light, b);
    assert forall|t: int| 0 <= t < map_a.len() implies map_a[t] == map_b[t] by {
        lemma_nearest_among_same(map_a[t], map_b[t], a, b, w, h, t);
        lemma_nearest_among_same(map_b[t], map_a[t], b, a, w, h, t);
    }
}

/// The nearest depth among a list of meshes is no farther than the nearest
/// among the same meshes in another order.
proof fn lemma_nearest_among_same(
    da: u32,
    db: u32,
    a: Seq<Caster>,
    b: Seq<Caster>,
    width: u32,
    height: u32,
    t: int,
)
    requires
        a.to_multiset() == b.to_multiset(),
        is_nearest(da, caster_fragments(a), a.len() as int, width, height, t),
        is_nearest(db, caster_fragments(b), b.len() as int, width, height, t),
    ensures
        da <= db,
{
    let fa = caster_fragments(a);
    let fb = caster_fragments(b);
    if db != DEPTH_FAR {
        let (k, j) = choose|k: int, j: int|
            0 <= k < b.len() && k < fb.len() && 0 <= j < fb[k].len() && hits(
                #[trigger] fb[k][j],
                width,
                height,
                t,
            ) && fb[k][j].depth == db;
        vstd::seq_lib::to_multiset_contains(b, b[k]);
        vstd::seq_lib::to_multiset_contains(a, b[k]);
        let i = choose|i: int| 0 <= i < a.len() && a[i] == b[k];
        assert(hits(fa[i][j], width, height, t));
    }
}

/// The largest bit pattern of a depth that is a number and not negative:
/// that of positive infinity.
pub const DEPTH_ORDERED_MAX: u32 = 0x7F80_0000;

/// Whether a bit pattern is that of a number that is not negative. Among
/// such patterns the order as unsigned integers is the order of the values.
/// The patterns above are those with the sign bit set, of depths in front of
/// the light's near plane, and those that are no number.
pub open spec fn spec_is_ordered(depth: u32) -> bool {
    depth <= DEPTH_ORDERED_MAX
}

/// Whether a fragment of light-space depth `depth` is in shadow where the
/// shadow map holds `stored`: its depth is greater than the stored depth by
/// more than `bias` steps of the depth scale. A depth in front of the light's
/// near plane, or one that is no number, is greater than no stored depth.
pub open spec fn spec_is_shadowed(depth: u32, stored: u32, bias: u32) -> bool {
    spec_is_ordered(depth) && depth > stored + bias
}

/// Whether a fragment of light-space depth `depth` is in shadow where the
/// shadow map holds `stored`. A fragment in shadow receives nothing from the
/// light; any other receives the light's full colour.
pub fn is_shadowed(depth: u32, stored: u32, bias: u32) -> (shadowed: bool)
    ensures
        shadowed == spec_is_shadowed(depth, stored, bias),
{
    depth <= DEPTH_ORDERED_MAX && depth as u64 > stored as u64 + bias as u64
}

/// Whether a depth is not beyond the far plane by more than the bias: it is
/// in front of the light's near plane, or no number, or at most `bias` steps
/// behind the far plane.
pub open spec fn within_far(depth: u32, bias: u32) -> bool {
    !spec_is_ordered(depth) || depth <= DEPTH_FAR + bias
}

/// Where a shadow map holds the far plane, a fragment is in shadow only if
/// it lies beyond the far plane by more than the bias.
pub proof fn lemma_far_never_shadows(depth: u32, bias: u32)
    ensures
        spec_is_shadowed(depth, DEPTH_FAR, bias) <==> !within_far(depth, bias),
{
}

/// A fragment that lies behind a surface of some mesh, on the same texel of
/// the light's shadow map and by more than the bias, is in shadow of that
/// light: it lies inside the footprint of an occluder.
pub proof fn lemma_occluded_is_shadowed(
    init: Seq<u32>,
    state: DepthStencilState,
    light: Mat4,
    caster_v: Seq<Caster>,
    k: int,
    j: int,
    depth: u32,
    bias: u32,
)
    requires
        keeps_nearest(state),
        0 <= k < caster_v.len(),
        0 <= j < caster_v[k].frag_v.len(),
        caster_v[k].frag_v[j].x < INTERNAL_SIZE,
        caster_v[k].frag_v[j].y < INTERNAL_SIZE,
        spec_is_ordered(depth),
        depth > caster_v[k].frag_v[j].depth + bias,
    ensures
        spec_is_shadowed(
            depth,
            shadow_map(init, state, light, caster_v)[caster_v[k].frag_v[j].y * INTERNAL_SIZE
                + caster_v[k].frag_v[j].x],
            bias,
        ),
{
    let f = caster_v[k].frag_v[j];
    let t = f.y * INTERNAL_SIZE + f.x;
    let frags = caster_fragments(caster_v);
    let map = shadow_map(init, state, light, caster_v);
    lemma_shadow_map_nearest(init, state, light, caster_v);
    lemma_row_bound(INTERNAL_SIZE, INTERNAL_SIZE, f.y);
    assert(is_nearest(map[t], frags, caster_v.len() as int, INTERNAL_SIZE, INTERNAL_SIZE, t));
    assert(hits(frags[k][j], INTERNAL_SIZE, INTERNAL_SIZE, t));
}

/// A fragment on a texel of the light's shadow map where no mesh has a
/// surface in front of it by more than the bias is not in shadow of that
/// light, unless it lies beyond the far plane by more than the bias: outside
/// the footprint of every occluder a fragment is lit.
pub proof fn lemma_unoccluded_is_lit(
    init: Seq<u32>,
    state: DepthStencilState,
    light: Mat4,
    caster_v: Seq<Caster>,
    t: int,
    depth: u32,
    bias: u32,
)
    requires
        keeps_nearest(state),
        0 <= t < INTERNAL_SIZE * INTERNAL_SIZE,
        within_far(depth, bias),
        forall|k: int, j: int|
            0 <= k < caster_v.len() && 0 <= j < caster_fragments(caster_v)[k].len() && hits(
                #[trigger] caster_fragments(caster_v)[k][j],
                INTERNAL_SIZE,
                INTERNAL_SIZE,
                t,
            ) ==> depth <= caster_fragments(caster_v)[k][j].depth + bias,
    ensures
        !spec_is_shadowed(depth, shadow_map(init, state, light, caster_v)[t], bias),
{
    let frags = caster_fragments(caster_v);
    let map = shadow_map(init, state, light, caster_v);
    lemma_shadow_map_nearest(init, state, light, caster_v);
    assert(is_nearest(map[t], frags, caster_v.len() as int, INTERNAL_SIZE, INTERNAL_SIZE, t));
    if map[t] != DEPTH_FAR {
        let (k, j) = choose|k: int, j: int|
            0 <= k < caster_v.len() && k < frags.len() && 0 <= j < frags[k].len() && hits(
                #[trigger] frags[k][j],
                INTERNAL_SIZE,
                INTERNAL_SIZE,
                t,
            ) && frags[k][j].depth == map[t];
        assert(depth <= frags[k][j].depth + bias);
    }
}

/// The texel of a fragment that no fragment on the same texel is nearer
/// than holds that fragment's depth, if the fragment is not behind the far
/// plane.
pub proof fn lemma_nearest_is_stored(
    init: Seq<u32>,
    state: DepthStencilState,
    light: Mat4,
    caster_v: Seq<Caster>,
    k: int,
    j: int,
)
    requires
        keeps_nearest(state),
        0 <= k < caster_v.len(),
        0 <= j < caster_v[k].frag_v.len(),
        caster_v[k].frag_v[j].x < INTERNAL_SIZE,
        caster_v[k].frag_v[j].y < INTERNAL_SIZE,
        caster_v[k].frag_v[j].depth <= DEPTH_FAR,
        forall|m: int, n: int|
            0 <= m < caster_v.len() && 0 <= n < caster_fragments(caster_v)[m].len() && hits(
                #[trigger] caster_fragments(caster_v)[m][n],
                INTERNAL_SIZE,
                INTERNAL_SIZE,
                caster_v[k].frag_v[j].y * INTERNAL_SIZE + caster_v[k].frag_v[j].x,
            ) ==> caster_v[k].frag_v[j].depth <= caster_fragments(caster_v)[m][n].depth,
    ensures
        shadow_map(init, state, light, caster_v)[caster_v[k].frag_v[j].y * INTERNAL_SIZE
            + caster_v[k].frag_v[j].x] == caster_v[k].frag_v[j].depth,
{
    let f = caster_v[k].frag_v[j];
    let t = f.y * INTERNAL_SIZE + f.x;
    let frags = caster_fragments(caster_v);
    let map = shadow_map(init, state, light, caster_v);
    lemma_shadow_map_nearest(init, state, light, caster_v);
    lemma_row_bound(INTERNAL_SIZE, INTERNAL_SIZE, f.y);
    assert(is_nearest(map[t], frags, caster_v.len() as int, INTERNAL_SIZE, INTERNAL_SIZE, t));
    assert(hits(frags[k][j], INTERNAL_SIZE, INTERNAL_SIZE, t));
    if map[t] != DEPTH_FAR {
        let (m, n) = choose|m: int, n: int|
            0 <= m < caster_v.len() && m < frags.len() && 0 <= n < frags[m].len() && hits(
                #[trigger] frags[m][n],
                INTERNAL_SIZE,
                INTERNAL_SIZE,
                t,
            ) && frags[m][n].depth == map[t];
        assert(f.depth <= frags[m][n].depth);
    }
}

/// The place of texel `(x, y)` in an attachment of `width` by `height`
/// texels, rows first.
pub fn texel_index(width: u32, height: u32, x: u32, y: u32) -> (t: usize)
    requires
        x < width,
        y < height,
        width * height <= usize::MAX,
    ensures
        t == y * width + x,
        t < width * height,
{
    proof {
        lemma_row_bound(width, height, y);
        assert((y + 1) * width == y * width + width) by (nonlinear_arith);
        assert(0 <= y * width) by (nonlinear_arith)
            requires
                y >= 0,
                width >= 0,
        ;
    }
    y as usize * width as usize + x as usize
}

/// Row `row` of an attachment ends inside the attachment.
pub proof fn lemma_row_bound(width: u32, height: u32, row: u32)
    requires
        row < height,
    ensures
        (row + 1) * width <= width * height,
{
    assert((row + 1) * width <= width * height) by (nonlinear_arith)
        requires
            row + 1 <= height,
            width >= 0,
    ;
}

} // verus!
