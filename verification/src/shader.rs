//! TEV shader descriptions: stages built from a few arithmetic forms, texture coordinate
//! generators, and the list of GX calls that loads a shader into the pipeline.
use vstd::prelude::*;

use crate::gx::{
    PostTransformTexMtxIndex, TevAlphaIn, TevAlphaKonst, TevBias, TevChannel, TevColorIn,
    TevColorKonst, TevOp, TevReg, TevScale, TevTexCoord, TevTexMap, TexGenSrc, TexGenType,
    TexMtxIndex,
};

verus! {

/// An input of one component (colour or alpha) of a TEV stage.
pub trait ComponentIn: Copy + Sized {
    /// The constant zero input.
    spec fn spec_zero() -> Self;

    /// The previous stage's output.
    spec fn spec_prev() -> Self;

    /// The register value of the input.
    spec fn spec_input_value(self) -> u8;

    /// The constant zero input.
    fn zero() -> (r: Self)
        ensures
            r == Self::spec_zero(),
    ;

    /// The previous stage's output.
    fn prev() -> (r: Self)
        ensures
            r == Self::spec_prev(),
    ;

    /// The register value of the input.
    fn input_value(self) -> (r: u8)
        ensures
            r == self.spec_input_value(),
    ;
}

impl ComponentIn for TevColorIn {
    open spec fn spec_zero() -> Self {
        TevColorIn::Constant0
    }

    open spec fn spec_prev() -> Self {
        TevColorIn::PrevColor
    }

    open spec fn spec_input_value(self) -> u8 {
        self.spec_as_u8()
    }

    fn zero() -> (r: Self) {
        TevColorIn::Constant0
    }

    fn prev() -> (r: Self) {
        TevColorIn::PrevColor
    }

    fn input_value(self) -> (r: u8) {
        self.as_u8()
    }
}

impl ComponentIn for TevAlphaIn {
    open spec fn spec_zero() -> Self {
        TevAlphaIn::Constant0
    }

    open spec fn spec_prev() -> Self {
        TevAlphaIn::PrevAlpha
    }

    open spec fn spec_input_value(self) -> u8 {
        self.spec_as_u8()
    }

    fn zero() -> (r: Self) {
        TevAlphaIn::Constant0
    }

    fn prev() -> (r: Self) {
        TevAlphaIn::PrevAlpha
    }

    fn input_value(self) -> (r: u8) {
        self.as_u8()
    }
}

/// A constant selection of one component of a TEV stage.
pub trait ComponentKonst: Copy + Sized {
    /// The register value of the selection.
    spec fn spec_konst_value(self) -> u8;

    /// The register value of the selection.
    fn konst_value(self) -> (r: u8)
        ensures
            r == self.spec_konst_value(),
    ;
}

impl ComponentKonst for TevColorKonst {
    open spec fn spec_konst_value(self) -> u8 {
        self.spec_as_u8()
    }

    fn konst_value(self) -> (r: u8) {
        self.as_u8()
    }
}

impl ComponentKonst for TevAlphaKonst {
    open spec fn spec_konst_value(self) -> u8 {
        self.spec_as_u8()
    }

    fn konst_value(self) -> (r: u8) {
        self.as_u8()
    }
}

/// One component of a TEV stage: it computes
/// `(d op ((1 - c) * a + c * b) + bias) * scale`, optionally clamped, into `dst`.
#[derive(Clone, Copy, Debug)]
pub struct TevStageComponent<Input: ComponentIn, Konst: ComponentKonst> {
    pub inputs: [Input; 4],
    pub op: TevOp,
    pub bias: TevBias,
    pub scale: TevScale,
    pub clamp: bool,
    pub dst: TevReg,
    pub konst_sel: Option<Konst>,
}

/// The colour component of a stage.
pub type TevStageColor = TevStageComponent<TevColorIn, TevColorKonst>;

/// The alpha component of a stage.
pub type TevStageAlpha = TevStageComponent<TevAlphaIn, TevAlphaKonst>;

impl<Input: ComponentIn, Konst: ComponentKonst> TevStageComponent<Input, Konst> {
    /// The component with inputs `a, b, c, d` and operation `op`, everything else as in
    /// [`TevStageComponent::zero`].
    pub open spec fn spec_with_inputs(a: Input, b: Input, c: Input, d: Input, op: TevOp) -> Self {
        TevStageComponent {
            inputs: [a, b, c, d],
            op,
            bias: TevBias::Zero,
            scale: TevScale::K1,
            clamp: true,
            dst: TevReg::Prev,
            konst_sel: None,
        }
    }

    /// Zero: all inputs zero, added, no bias, scale one, clamped, into the previous register.
    pub fn zero() -> (r: Self)
        ensures
            r == Self::spec_with_inputs(
                Input::spec_zero(),
                Input::spec_zero(),
                Input::spec_zero(),
                Input::spec_zero(),
                TevOp::Add,
            ),
    {
        let z = Input::zero();
        TevStageComponent {
            inputs: [z, z, z, z],
            op: TevOp::Add,
            bias: TevBias::Zero,
            scale: TevScale::K1,
            clamp: true,
            dst: TevReg::Prev,
            konst_sel: None,
        }
    }

    /// Passes the previous stage's output through.
    pub fn pass() -> (r: Self)
        ensures
            r == Self::spec_with_inputs(
                Input::spec_zero(),
                Input::spec_zero(),
                Input::spec_zero(),
                Input::spec_prev(),
                TevOp::Add,
            ),
    {
        Self::just(Input::prev())
    }

    /// Just `input_10bit`.
    pub fn just(input_10bit: Input) -> (r: Self)
        ensures
            r == Self::spec_with_inputs(
                Input::spec_zero(),
                Input::spec_zero(),
                Input::spec_zero(),
                input_10bit,
                TevOp::Add,
            ),
    {
        let z = Input::zero();
        Self::with_inputs(z, z, z, input_10bit, TevOp::Add)
    }

    /// `a + b`.
    pub fn add(a_10bit: Input, b: Input) -> (r: Self)
        ensures
            r == Self::spec_with_inputs(b, Input::spec_zero(), Input::spec_zero(), a_10bit, TevOp::Add),
    {
        let z = Input::zero();
        Self::with_inputs(b, z, z, a_10bit, TevOp::Add)
    }

    /// `a - b`.
    pub fn sub(a_10bit: Input, b: Input) -> (r: Self)
        ensures
            r == Self::spec_with_inputs(b, Input::spec_zero(), Input::spec_zero(), a_10bit, TevOp::Sub),
    {
        let z = Input::zero();
        Self::with_inputs(b, z, z, a_10bit, TevOp::Sub)
    }

    /// `a * b`.
    pub fn mul(a: Input, b: Input) -> (r: Self)
        ensures
            r == Self::spec_with_inputs(Input::spec_zero(), a, b, Input::spec_zero(), TevOp::Add),
    {
        let z = Input::zero();
        Self::with_inputs(z, a, b, z, TevOp::Add)
    }

    /// `a + b * c`.
    pub fn add_mul(a_10bit: Input, b: Input, c: Input) -> (r: Self)
        ensures
            r == Self::spec_with_inputs(Input::spec_zero(), b, c, a_10bit, TevOp::Add),
    {
        let z = Input::zero();
        Self::with_inputs(z, b, c, a_10bit, TevOp::Add)
    }

    /// `a - b * c`.
    pub fn sub_mul(a_10bit: Input, b: Input, c: Input) -> (r: Self)
        ensures
            r == Self::spec_with_inputs(Input::spec_zero(), b, c, a_10bit, TevOp::Sub),
    {
        let z = Input::zero();
        Self::with_inputs(z, b, c, a_10bit, TevOp::Sub)
    }

    /// `(1 - c) * a + c * b`.
    pub fn mix(a: Input, b: Input, c: Input) -> (r: Self)
        ensures
            r == Self::spec_with_inputs(a, b, c, Input::spec_zero(), TevOp::Add),
    {
        let z = Input::zero();
        Self::with_inputs(a, b, c, z, TevOp::Add)
    }

    /// `a.r > b.r ? c : 0`.
    pub fn comp_r8_gt(a: Input, b: Input, c: Input) -> (r: Self)
        ensures
            r == Self::spec_with_inputs(a, b, c, Input::spec_zero(), TevOp::CompR8Gt),
    {
        Self::comp_r8_gt_add(a, b, c, Input::zero())
    }

    /// `(a.r > b.r ? c : 0) + d`.
    pub fn comp_r8_gt_add(a: Input, b: Input, c: Input, d_10bit: Input) -> (r: Self)
        ensures
            r == Self::spec_with_inputs(a, b, c, d_10bit, TevOp::CompR8Gt),
    {
        Self::with_inputs(a, b, c, d_10bit, TevOp::CompR8Gt)
    }

    /// The component with the given inputs and operation.
    fn with_inputs(a: Input, b: Input, c: Input, d: Input, op: TevOp) -> (r: Self)
        ensures
            r == Self::spec_with_inputs(a, b, c, d, op),
    {
        TevStageComponent {
            inputs: [a, b, c, d],
            op,
            bias: TevBias::Zero,
            scale: TevScale::K1,
            clamp: true,
            dst: TevReg::Prev,
            konst_sel: None,
        }
    }

    /// The same component with another bias.
    pub fn with_bias(self, bias: TevBias) -> (r: Self)
        ensures
            r == (TevStageComponent { bias, ..self }),
    {
        TevStageComponent { bias, ..self }
    }

    /// The same component with another scale.
    pub fn with_scale(self, scale: TevScale) -> (r: Self)
        ensures
            r == (TevStageComponent { scale, ..self }),
    {
        TevStageComponent { scale, ..self }
    }

    /// The same component, clamped or not.
    pub fn with_clamp(self, clamp: bool) -> (r: Self)
        ensures
            r == (TevStageComponent { clamp, ..self }),
    {
        TevStageComponent { clamp, ..self }
    }

    /// The same component into another register.
    pub fn with_dst(self, dst: TevReg) -> (r: Self)
        ensures
            r == (TevStageComponent { dst, ..self }),
    {
        TevStageComponent { dst, ..self }
    }

    /// The same component with another constant selection.
    pub fn with_konst_sel(self, konst_sel: Option<Konst>) -> (r: Self)
        ensures
            r == (TevStageComponent { konst_sel, ..self }),
    {
        TevStageComponent { konst_sel, ..self }
    }
}

/// A TEV stage: a colour and an alpha component and what they read.
#[derive(Clone, Copy, Debug)]
pub struct TevStage {
    pub color: TevStageColor,
    pub alpha: TevStageAlpha,
    pub tex_coord: TevTexCoord,
    pub tex_map: TevTexMap,
    pub channel: TevChannel,
    pub ras_swap: u8,
    pub tex_swap: u8,
}

impl TevStage {
    /// The stage that passes the previous stage's colour and alpha through and reads nothing.
    pub open spec fn spec_pass() -> Self {
        TevStage {
            color: TevStageColor::spec_with_inputs(
                TevColorIn::Constant0,
                TevColorIn::Constant0,
                TevColorIn::Constant0,
                TevColorIn::PrevColor,
                TevOp::Add,
            ),
            alpha: TevStageAlpha::spec_with_inputs(
                TevAlphaIn::Constant0,
                TevAlphaIn::Constant0,
                TevAlphaIn::Constant0,
                TevAlphaIn::PrevAlpha,
                TevOp::Add,
            ),
            tex_coord: TevTexCoord::Null,
            tex_map: TevTexMap::spec_new(0xff),
            channel: TevChannel::Null,
            ras_swap: 0,
            tex_swap: 0,
        }
    }

    /// The stage that passes the previous stage's colour and alpha through and reads nothing.
    pub fn pass() -> (r: Self)
        ensures
            r == Self::spec_pass(),
    {
        TevStage {
            color: TevStageColor::pass(),
            alpha: TevStageAlpha::pass(),
            tex_coord: TevTexCoord::Null,
            tex_map: TevTexMap::NULL(),
            channel: TevChannel::Null,
            ras_swap: 0,
            tex_swap: 0,
        }
    }

    /// A stage with the given components, reading nothing.
    pub fn new(color: TevStageColor, alpha: TevStageAlpha) -> (r: Self)
        ensures
            r == (TevStage { color, alpha, ..Self::spec_pass() }),
    {
        TevStage { color, alpha, ..Self::pass() }
    }

    /// A stage that computes `color` and passes alpha through.
    pub fn color_only(color: TevStageColor) -> (r: Self)
        ensures
            r == (TevStage { color, ..Self::spec_pass() }),
    {
        TevStage { color, ..Self::pass() }
    }

    /// A stage that computes `alpha` and passes colour through.
    pub fn alpha_only(alpha: TevStageAlpha) -> (r: Self)
        ensures
            r == (TevStage { alpha, ..Self::spec_pass() }),
    {
        TevStage { alpha, ..Self::pass() }
    }

    /// The same stage with its colour written to `dst`.
    pub fn with_color_dst(self, dst: TevReg) -> (r: Self)
        ensures
            r == (TevStage { color: TevStageComponent { dst, ..self.color }, ..self }),
    {
        TevStage { color: TevStageComponent { dst, ..self.color }, ..self }
    }

    /// The same stage reading another texture coordinate.
    pub fn with_tex_coord(self, tex_coord: TevTexCoord) -> (r: Self)
        ensures
            r == (TevStage { tex_coord, ..self }),
    {
        TevStage { tex_coord, ..self }
    }

    /// The same stage reading another texture map.
    pub fn with_tex_map(self, tex_map: TevTexMap) -> (r: Self)
        ensures
            r == (TevStage { tex_map, ..self }),
    {
        TevStage { tex_map, ..self }
    }

    /// The same stage reading another colour channel.
    pub fn with_channel(self, channel: TevChannel) -> (r: Self)
        ensures
            r == (TevStage { channel, ..self }),
    {
        TevStage { channel, ..self }
    }

    /// The same stage with another rasterized-colour swap.
    pub fn with_ras_swap(self, ras_swap: u8) -> (r: Self)
        ensures
            r == (TevStage { ras_swap, ..self }),
    {
        TevStage { ras_swap, ..self }
    }

    /// The same stage with another texture-colour swap.
    pub fn with_tex_swap(self, tex_swap: u8) -> (r: Self)
        ensures
            r == (TevStage { tex_swap, ..self }),
    {
        TevStage { tex_swap, ..self }
    }

    /// The GX calls that load this stage as stage `index`: the colour component's, the alpha
    /// component's, then the order and the swap mode.
    pub open spec fn spec_commands(self, index: u8) -> Seq<GxCommand> {
        spec_color_commands(self.color, index) + spec_alpha_commands(self.alpha, index) + seq![
            GxCommand::SetTevOrder {
                stage: index,
                tex_coord: self.tex_coord.spec_as_u8(),
                tex_map: self.tex_map@,
                channel: self.channel.spec_as_u8(),
            },
            GxCommand::SetTevSwapMode { stage: index, ras_swap: self.ras_swap, tex_swap: self.tex_swap },
        ]
    }

    /// The GX calls that load this stage as stage `index`.
    pub fn apply(&self, index: u8) -> (r: Vec<GxCommand>)
        ensures
            r@ == self.spec_commands(index),
    {
        let mut v = color_commands(&self.color, index);
        let mut a = alpha_commands(&self.alpha, index);
        v.append(&mut a);
        v.push(
            GxCommand::SetTevOrder {
                stage: index,
                tex_coord: self.tex_coord.as_u8(),
                tex_map: self.tex_map.as_u32(),
                channel: self.channel.as_u8(),
            },
        );
        v.push(GxCommand::SetTevSwapMode { stage: index, ras_swap: self.ras_swap, tex_swap: self.tex_swap });
        assert(v@ =~= self.spec_commands(index));
        v
    }
}

/// The GX calls that load a colour component as stage `index`'s: inputs, operation, and the
/// constant selection when there is one.
pub open spec fn spec_color_commands(c: TevStageColor, index: u8) -> Seq<GxCommand> {
    seq![
        GxCommand::SetTevColorIn {
            stage: index,
            a: c.inputs[0].spec_input_value(),
            b: c.inputs[1].spec_input_value(),
            c: c.inputs[2].spec_input_value(),
            d: c.inputs[3].spec_input_value(),
        },
        GxCommand::SetTevColorOp {
            stage: index,
            op: c.op.spec_as_u8(),
            bias: c.bias.spec_as_u8(),
            scale: c.scale.spec_as_u8(),
            clamp: c.clamp,
            dst: c.dst.spec_as_u8(),
        },
    ] + match c.konst_sel {
        Some(k) => seq![GxCommand::SetTevKColorSel { stage: index, sel: k.spec_konst_value() }],
        None => Seq::empty(),
    }
}

/// The GX calls that load an alpha component as stage `index`'s: inputs, operation, and the
/// constant selection when there is one.
pub open spec fn spec_alpha_commands(a: TevStageAlpha, index: u8) -> Seq<GxCommand> {
    seq![
        GxCommand::SetTevAlphaIn {
            stage: index,
            a: a.inputs[0].spec_input_value(),
            b: a.inputs[1].spec_input_value(),
            c: a.inputs[2].spec_input_value(),
            d: a.inputs[3].spec_input_value(),
        },
        GxCommand::SetTevAlphaOp {
            stage: index,
            op: a.op.spec_as_u8(),
            bias: a.bias.spec_as_u8(),
            scale: a.scale.spec_as_u8(),
            clamp: a.clamp,
            dst: a.dst.spec_as_u8(),
        },
    ] + match a.konst_sel {
        Some(k) => seq![GxCommand::SetTevKAlphaSel { stage: index, sel: k.spec_konst_value() }],
        None => Seq::empty(),
    }
}

/// The GX calls that load a colour component.
fn color_commands(c: &TevStageColor, index: u8) -> (r: Vec<GxCommand>)
    ensures
        r@ == spec_color_commands(*c, index),
{
    let mut v: Vec<GxCommand> = Vec::new();
    v.push(
        GxCommand::SetTevColorIn {
            stage: index,
            a: c.inputs[0].input_value(),
            b: c.inputs[1].input_value(),
            c: c.inputs[2].input_value(),
            d: c.inputs[3].input_value(),
        },
    );
    v.push(
        GxCommand::SetTevColorOp {
            stage: index,
            op: c.op.as_u8(),
            bias: c.bias.as_u8(),
            scale: c.scale.as_u8(),
            clamp: c.clamp,
            dst: c.dst.as_u8(),
        },
    );
    match c.konst_sel {
        Some(k) => v.push(GxCommand::SetTevKColorSel { stage: index, sel: k.konst_value() }),
        None => {},
    }
    assert(v@ =~= spec_color_commands(*c, index));
    v
}

/// The GX calls that load an alpha component.
fn alpha_commands(a: &TevStageAlpha, index: u8) -> (r: Vec<GxCommand>)
    ensures
        r@ == spec_alpha_commands(*a, index),
{
    let mut v: Vec<GxCommand> = Vec::new();
    v.push(
        GxCommand::SetTevAlphaIn {
            stage: index,
            a: a.inputs[0].input_value(),
            b: a.inputs[1].input_value(),
            c: a.inputs[2].input_value(),
            d: a.inputs[3].input_value(),
        },
    );
    v.push(
        GxCommand::SetTevAlphaOp {
            stage: index,
            op: a.op.as_u8(),
            bias: a.bias.as_u8(),
            scale: a.scale.as_u8(),
            clamp: a.clamp,
            dst: a.dst.as_u8(),
        },
    );
    match a.konst_sel {
        Some(k) => v.push(GxCommand::SetTevKAlphaSel { stage: index, sel: k.konst_value() }),
        None => {},
    }
    assert(v@ =~= spec_alpha_commands(*a, index));
    v
}

/// A texture coordinate generator.
#[derive(Clone, Copy, Debug)]
pub struct TexGen {
    pub type_: TexGenType,
    pub src: TexGenSrc,
    pub mtx_index: TexMtxIndex,
    pub normalize: bool,
    pub post_mtx_index: PostTransformTexMtxIndex,
    pub cyl_wrap_s: bool,
    pub cyl_wrap_t: bool,
}

impl TexGen {
    /// A generator of the given type from `src` through `mtx_index`, not normalized, with the
    /// identity post-transform and no cylindrical wrapping.
    pub fn new(type_: TexGenType, src: TexGenSrc, mtx_index: TexMtxIndex) -> (r: Self)
        ensures
            r.type_ == type_,
            r.src == src,
            r.mtx_index == mtx_index,
            !r.normalize,
            r.post_mtx_index == PostTransformTexMtxIndex::spec_new(0x7d),
            !r.cyl_wrap_s,
            !r.cyl_wrap_t,
    {
        TexGen {
            type_,
            src,
            mtx_index,
            normalize: false,
            post_mtx_index: PostTransformTexMtxIndex::IDENTITY(),
            cyl_wrap_s: false,
            cyl_wrap_t: false,
        }
    }

    /// The same generator, normalized or not.
    pub fn with_normalize(self, normalize: bool) -> (r: Self)
        ensures
            r == (TexGen { normalize, ..self }),
    {
        TexGen { normalize, ..self }
    }

    /// The same generator with another post-transform matrix.
    pub fn with_post_mtx_index(self, post_mtx_index: PostTransformTexMtxIndex) -> (r: Self)
        ensures
            r == (TexGen { post_mtx_index, ..self }),
    {
        TexGen { post_mtx_index, ..self }
    }

    /// The same generator, wrapping cylindrically in S or not.
    pub fn with_cyl_wrap_s(self, cyl_wrap_s: bool) -> (r: Self)
        ensures
            r == (TexGen { cyl_wrap_s, ..self }),
    {
        TexGen { cyl_wrap_s, ..self }
    }

    /// The same generator, wrapping cylindrically in T or not.
    pub fn with_cyl_wrap_t(self, cyl_wrap_t: bool) -> (r: Self)
        ensures
            r == (TexGen { cyl_wrap_t, ..self }),
    {
        TexGen { cyl_wrap_t, ..self }
    }

    /// The GX calls that load this generator for texture coordinate `tex_coord`.
    pub open spec fn spec_commands(self, tex_coord: u8) -> Seq<GxCommand> {
        seq![
            GxCommand::SetTexCoordGen2 {
                tex_coord: tex_coord as u16,
                type_: self.type_.spec_as_u8() as u32,
                src: self.src.spec_as_u8() as u32,
                mtx: self.mtx_index@,
                normalize: self.normalize,
                post_mtx: self.post_mtx_index@,
            },
            GxCommand::SetTexCoordCylWrap {
                tex_coord,
                s: self.cyl_wrap_s,
                t: self.cyl_wrap_t,
            },
        ]
    }

    /// The GX calls that load this generator for texture coordinate `tex_coord`.
    pub fn apply(&self, tex_coord: u8) -> (r: Vec<GxCommand>)
        ensures
            r@ == self.spec_commands(tex_coord),
    {
        let mut v: Vec<GxCommand> = Vec::new();
        v.push(
            GxCommand::SetTexCoordGen2 {
                tex_coord: tex_coord as u16,
                type_: self.type_.as_u8() as u32,
                src: self.src.as_u8() as u32,
                mtx: self.mtx_index.as_u32(),
                normalize: self.normalize,
                post_mtx: self.post_mtx_index.as_u32(),
            },
        );
        v.push(
            GxCommand::SetTexCoordCylWrap {
                tex_coord,
                s: self.cyl_wrap_s,
                t: self.cyl_wrap_t,
            },
        );
        assert(v@ =~= self.spec_commands(tex_coord));
        v
    }
}

/// A call into the GX pipeline state.
#[derive(Clone, Copy, Debug, PartialEq, Eq, Structural)]
pub enum GxCommand {
    SetNumTevStages(u8),
    SetTevColorIn { stage: u8, a: u8, b: u8, c: u8, d: u8 },
    SetTevColorOp { stage: u8, op: u8, bias: u8, scale: u8, clamp: bool, dst: u8 },
    SetTevKColorSel { stage: u8, sel: u8 },
    SetTevAlphaIn { stage: u8, a: u8, b: u8, c: u8, d: u8 },
    SetTevAlphaOp { stage: u8, op: u8, bias: u8, scale: u8, clamp: bool, dst: u8 },
    SetTevKAlphaSel { stage: u8, sel: u8 },
    SetTevOrder { stage: u8, tex_coord: u8, tex_map: u32, channel: u8 },
    SetTevSwapMode { stage: u8, ras_swap: u8, tex_swap: u8 },
    SetNumChans(u8),
    SetNumTexGens(u32),
    SetTexCoordGen2 { tex_coord: u16, type_: u32, src: u32, mtx: u32, normalize: bool, post_mtx: u32 },
    SetTexCoordCylWrap { tex_coord: u8, s: bool, t: bool },
    SetTevSwapModeTable { index: u8, red: u8, green: u8, blue: u8, alpha: u8 },
}

/// Number of TEV stages.
pub const MAX_TEV_STAGES: usize = 16;

/// Number of texture coordinate generators.
pub const MAX_TEX_GENS: usize = 8;

/// The number of present entries among the first `n` of `s`.
pub open spec fn spec_count_some<T>(s: Seq<Option<T>>, n: int) -> int
    decreases n,
{
    if n <= 0 {
        0
    } else {
        spec_count_some(s, n - 1) + if s[n - 1] is Some { 1int } else { 0int }
    }
}

/// Whether the present entries of `s` are exactly its first ones.
pub open spec fn spec_prefix_present<T>(s: Seq<Option<T>>) -> bool {
    forall|i: int, j: int| 0 <= i < j < s.len() && s[j] is Some ==> s[i] is Some
}

/// The commands of stages `0..n` of `stages`, in order.
pub open spec fn spec_stages_commands(stages: Seq<Option<TevStage>>, n: int) -> Seq<GxCommand>
    decreases n,
{
    if n <= 0 {
        Seq::empty()
    } else {
        spec_stages_commands(stages, n - 1) + match stages[n - 1] {
            Some(s) => s.spec_commands((n - 1) as u8),
            None => Seq::empty(),
        }
    }
}

/// The commands of generators `0..n` of `gens`, in order.
pub open spec fn spec_tex_gens_commands(gens: Seq<Option<TexGen>>, n: int) -> Seq<GxCommand>
    decreases n,
{
    if n <= 0 {
        Seq::empty()
    } else {
        spec_tex_gens_commands(gens, n - 1) + match gens[n - 1] {
            Some(g) => g.spec_commands((n - 1) as u8),
            None => Seq::empty(),
        }
    }
}

/// The commands of swap table entries `0..n`.
pub open spec fn spec_swap_commands(table: Seq<[u8; 4]>, n: int) -> Seq<GxCommand>
    decreases n,
{
    if n <= 0 {
        Seq::empty()
    } else {
        spec_swap_commands(table, n - 1).push(
            GxCommand::SetTevSwapModeTable {
                index: (n - 1) as u8,
                red: table[n - 1][0],
                green: table[n - 1][1],
                blue: table[n - 1][2],
                alpha: table[n - 1][3],
            },
        )
    }
}

/// A shader: up to 16 TEV stages, the number of colour channels, up to 8 texture coordinate
/// generators and the swap table.
#[derive(Clone, Copy, Debug)]
pub struct Shader {
    pub stages: [Option<TevStage>; 16],
    pub num_chans: u8,
    pub tex_gens: [Option<TexGen>; 8],
    pub swap_table: [[u8; 4]; 4],
}

impl Shader {
    /// Whether the stages and the generators that are present are the first ones, which is what
    /// loading a shader expects.
    pub open spec fn spec_loadable(&self) -> bool {
        spec_prefix_present(self.stages@) && spec_prefix_present(self.tex_gens@)
    }

    /// The GX calls that load the shader: the stage count, each stage, the channel count, the
    /// generator count, each generator, and the four swap table entries.
    pub open spec fn spec_commands(&self) -> Seq<GxCommand> {
        seq![GxCommand::SetNumTevStages(spec_count_some(self.stages@, 16) as u8)]
            + spec_stages_commands(self.stages@, 16) + seq![
            GxCommand::SetNumChans(self.num_chans),
            GxCommand::SetNumTexGens(spec_count_some(self.tex_gens@, 8) as u32),
        ] + spec_tex_gens_commands(self.tex_gens@, 8) + spec_swap_commands(self.swap_table@, 4)
    }

    /// No stages, no channels, no generators and the identity swap table.
    pub fn default() -> (r: Self)
        ensures
            forall|i: int| 0 <= i < 16 ==> r.stages@[i] is None,
            r.num_chans == 0,
            forall|i: int| 0 <= i < 8 ==> r.tex_gens@[i] is None,
            forall|i: int| 0 <= i < 4 ==> r.swap_table@[i]@ == seq![0u8, 1, 2, 3],
    {
        let r = Shader {
            stages: [None, None, None, None, None, None, None, None, None, None, None, None, None, None, None, None],
            num_chans: 0,
            tex_gens: [None, None, None, None, None, None, None, None],
            swap_table: [[0, 1, 2, 3], [0, 1, 2, 3], [0, 1, 2, 3], [0, 1, 2, 3]],
        };
        assert(r.swap_table@[0]@ =~= seq![0u8, 1, 2, 3]);
        assert(r.swap_table@[1]@ =~= seq![0u8, 1, 2, 3]);
        assert(r.swap_table@[2]@ =~= seq![0u8, 1, 2, 3]);
        assert(r.swap_table@[3]@ =~= seq![0u8, 1, 2, 3]);
        r
    }

    /// The number of stages present.
    pub fn num_tev_stages(&self) -> (r: u8)
        ensures
            r == spec_count_some(self.stages@, 16),
    {
        let mut n: u8 = 0;
        let mut i: usize = 0;
        while i < 16
            invariant
                i <= 16,
                n == spec_count_some(self.stages@, i as int),
                n <= i,
            decreases 16 - i,
        {
            if self.stages[i].is_some() {
                n = n + 1;
            }
            i = i + 1;
        }
        n
    }

    /// The number of generators present.
    pub fn num_tex_gens(&self) -> (r: u32)
        ensures
            r == spec_count_some(self.tex_gens@, 8),
    {
        let mut n: u32 = 0;
        let mut i: usize = 0;
        while i < 8
            invariant
                i <= 8,
                n == spec_count_some(self.tex_gens@, i as int),
                n <= i,
            decreases 8 - i,
        {
            if self.tex_gens[i].is_some() {
                n = n + 1;
            }
            i = i + 1;
        }
        n
    }

    /// Whether the shader can be loaded, as [`Shader::spec_loadable`] says.
    pub fn is_loadable(&self) -> (r: bool)
        ensures
            r == self.spec_loadable(),
    {
        prefix_present_stages(&self.stages) && prefix_present_gens(&self.tex_gens)
    }

    /// The GX calls that load the shader.
    pub fn apply(&self) -> (r: Vec<GxCommand>)
        requires
            self.spec_loadable(),
        ensures
            r@ == self.spec_commands(),
    {
        let mut v: Vec<GxCommand> = Vec::new();
        v.push(GxCommand::SetNumTevStages(self.num_tev_stages()));
        let ghost head = v@;
        let mut i: usize = 0;
        while i < 16
            invariant
                i <= 16,
                v@ == head + spec_stages_commands(self.stages@, i as int),
            decreases 16 - i,
        {
            match self.stages[i] {
                Some(s) => {
                    let mut cmds = s.apply(i as u8);
                    v.append(&mut cmds);
                },
                None => {},
            }
            i = i + 1;
        }
        v.push(GxCommand::SetNumChans(self.num_chans));
        v.push(GxCommand::SetNumTexGens(self.num_tex_gens()));
        let ghost head2 = v@;
        let mut j: usize = 0;
        while j < 8
            invariant
                j <= 8,
                v@ == head2 + spec_tex_gens_commands(self.tex_gens@, j as int),
            decreases 8 - j,
        {
            match self.tex_gens[j] {
                Some(g) => {
                    let mut cmds = g.apply(j as u8);
                    v.append(&mut cmds);
                },
                None => {},
            }
            j = j + 1;
        }
        let ghost head3 = v@;
        let mut k: usize = 0;
        while k < 4
            invariant
                k <= 4,
                v@ == head3 + spec_swap_commands(self.swap_table@, k as int),
            decreases 4 - k,
        {
            let swap = self.swap_table[k];
            v.push(
                GxCommand::SetTevSwapModeTable {
                    index: k as u8,
                    red: swap[0],
                    green: swap[1],
                    blue: swap[2],
                    alpha: swap[3],
                },
            );
            k = k + 1;
        }
        assert(v@ =~= self.spec_commands());
        v
    }

    /// The same shader with every missing stage replaced by a pass-through stage, so that all
    /// sixteen stages run.
    pub fn make_slow(self) -> (r: Self)
        ensures
            forall|i: int|
                0 <= i < 16 ==> r.stages@[i] == match self.stages@[i] {
                    None => Some(TevStage::spec_pass()),
                    Some(s) => Some(s),
                },
            r.num_chans == self.num_chans,
            r.tex_gens == self.tex_gens,
            r.swap_table == self.swap_table,
    {
        let mut r = self;
        let mut i: usize = 0;
        while i < 16
            invariant
                i <= 16,
                r.num_chans == self.num_chans,
                r.tex_gens == self.tex_gens,
                r.swap_table == self.swap_table,
                forall|j: int|
                    0 <= j < i ==> r.stages@[j] == match self.stages@[j] {
                        None => Some(TevStage::spec_pass()),
                        Some(s) => Some(s),
                    },
                forall|j: int| i <= j < 16 ==> r.stages@[j] == self.stages@[j],
            decreases 16 - i,
        {
            let s = Self::make_stage_slow(r.stages[i]);
            r.stages.set(i, s);
            i = i + 1;
        }
        r
    }

    /// A missing stage becomes a pass-through stage; a present one is kept.
    pub fn make_stage_slow(stage: Option<TevStage>) -> (r: Option<TevStage>)
        ensures
            r == match stage {
                None => Some(TevStage::spec_pass()),
                Some(s) => Some(s),
            },
    {
        match stage {
            None => Some(TevStage::pass()),
            Some(s) => Some(s),
        }
    }
}

/// Whether the present stages are the first ones.
fn prefix_present_stages(s: &[Option<TevStage>; 16]) -> (r: bool)
    ensures
        r == spec_prefix_present(s@),
{
    let mut seen_none = false;
    let mut i: usize = 0;
    while i < 16
        invariant
            i <= 16,
            s@.len() == 16,
            forall|a: int, b: int|
                #![trigger s@[a], s@[b]]
                0 <= a < b < i && s@[b] is Some ==> s@[a] is Some,
            seen_none <==> exists|k: int| 0 <= k < i && #[trigger] s@[k] is None,
        decreases 16 - i,
    {
        if s[i].is_some() && seen_none {
            assert(!spec_prefix_present(s@)) by {
                let k = choose|k: int| 0 <= k < i && #[trigger] s@[k] is None;
                assert(0 <= k < i && s@[i as int] is Some);
            }
            return false;
        }
        if s[i].is_none() {
            seen_none = true;
        }
        i = i + 1;
    }
    true
}

/// Whether the present generators are the first ones.
fn prefix_present_gens(s: &[Option<TexGen>; 8]) -> (r: bool)
    ensures
        r == spec_prefix_present(s@),
{
    let mut seen_none = false;
    let mut i: usize = 0;
    while i < 8
        invariant
            i <= 8,
            s@.len() == 8,
            forall|a: int, b: int|
                #![trigger s@[a], s@[b]]
                0 <= a < b < i && s@[b] is Some ==> s@[a] is Some,
            seen_none <==> exists|k: int| 0 <= k < i && #[trigger] s@[k] is None,
        decreases 8 - i,
    {
        if s[i].is_some() && seen_none {
            assert(!spec_prefix_present(s@)) by {
                let k = choose|k: int| 0 <= k < i && #[trigger] s@[k] is None;
                assert(0 <= k < i && s@[i as int] is Some);
            }
            return false;
        }
        if s[i].is_none() {
            seen_none = true;
        }
        i = i + 1;
    }
    true
}

/// Collects up to sixteen stages, in order, for a shader.
pub struct TevBuilder {
    stages: Vec<TevStage>,
}

impl TevBuilder {
    /// The stages added so far.
    pub closed spec fn spec_stages(&self) -> Seq<TevStage> {
        self.stages@
    }

    /// The same builder with `stage` added after the others.
    pub fn add_stage(self, stage: TevStage) -> (r: Self)
        requires
            self.spec_stages().len() < MAX_TEV_STAGES,
        ensures
            r.spec_stages() == self.spec_stages().push(stage),
    {
        let mut stages = self.stages;
        stages.push(stage);
        TevBuilder { stages }
    }

    /// The sixteen stage slots: the stages added, in order, then empty slots.
    pub fn build(self) -> (r: [Option<TevStage>; 16])
        requires
            self.spec_stages().len() <= MAX_TEV_STAGES,
        ensures
            forall|i: int|
                0 <= i < 16 ==> r@[i] == if i < self.spec_stages().len() {
                    Some(self.spec_stages()[i])
                } else {
                    None
                },
    {
        let mut out: [Option<TevStage>; 16] = [None, None, None, None, None, None, None, None, None, None, None, None, None, None, None, None];
        let n = self.stages.len();
        let mut i: usize = 0;
        while i < n
            invariant
                n == self.stages@.len(),
                n <= 16,
                i <= n,
                forall|j: int| 0 <= j < i ==> out@[j] == Some(self.stages@[j]),
                forall|j: int| i <= j < 16 ==> out@[j] is None,
            decreases n - i,
        {
            out.set(i, Some(self.stages[i]));
            i = i + 1;
        }
        out
    }
}

/// An empty stage builder.
pub fn tev_builder() -> (r: TevBuilder)
    ensures
        r.spec_stages() == Seq::<TevStage>::empty(),
{
    TevBuilder { stages: Vec::new() }
}


/// Counting the present entries among the first `n` of entries whose first `k` are present and
/// the rest absent gives the smaller of `n` and `k`.
proof fn lemma_count_prefix<T>(s: Seq<Option<T>>, k: int, n: int)
    requires
        0 <= n <= s.len(),
        0 <= k <= s.len(),
        forall|i: int| 0 <= i < s.len() ==> (s[i] is Some <==> i < k),
    ensures
        spec_count_some(s, n) == if n < k { n } else { k },
    decreases n,
{
    if n > 0 {
        lemma_count_prefix(s, k, n - 1);
    }
}

/// The stage slots that the builder fills hold the added stages first and nothing after them:
/// such a shader can be loaded and has as many stages as were added.
pub proof fn lemma_built_stages_loadable(stages: Seq<Option<TevStage>>, added: Seq<TevStage>)
    requires
        stages.len() == MAX_TEV_STAGES,
        added.len() <= MAX_TEV_STAGES,
        forall|i: int|
            0 <= i < MAX_TEV_STAGES ==> stages[i] == if i < added.len() {
                Some(added[i])
            } else {
                None
            },
    ensures
        spec_prefix_present(stages),
        spec_count_some(stages, MAX_TEV_STAGES as int) == added.len(),
{
    lemma_count_prefix(stages, added.len() as int, MAX_TEV_STAGES as int);
}

/// A shader whose stages are all present, as `make_slow` leaves it, runs all sixteen stages.
pub proof fn lemma_all_stages_present(stages: Seq<Option<TevStage>>)
    requires
        stages.len() == MAX_TEV_STAGES,
        forall|i: int| 0 <= i < MAX_TEV_STAGES ==> stages[i] is Some,
    ensures
        spec_prefix_present(stages),
        spec_count_some(stages, MAX_TEV_STAGES as int) == MAX_TEV_STAGES,
{
    lemma_count_prefix(stages, MAX_TEV_STAGES as int, MAX_TEV_STAGES as int);
}

} // verus!
