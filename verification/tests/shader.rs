use bsp_loader::gx::{
    TevAlphaIn, TevColorIn, TevOp, TevReg, TevScale, TevTexCoord, TevTexMap, TexGenSrc,
    TexGenType, TexMtxIndex,
};
use bsp_loader::shader::{
    tev_builder, GxCommand, Shader, TevStage, TevStageAlpha, TevStageColor, TexGen,
};

#[test]
fn component_forms() {
    let c = TevStageColor::just(TevColorIn::TexColor);
    assert_eq!(
        c.inputs,
        [TevColorIn::Constant0, TevColorIn::Constant0, TevColorIn::Constant0, TevColorIn::TexColor]
    );
    assert_eq!(c.op, TevOp::Add);
    assert!(c.clamp);
    assert_eq!(c.dst, TevReg::Prev);
    let m = TevStageColor::mul(TevColorIn::PrevColor, TevColorIn::TexColor);
    assert_eq!(m.inputs[1], TevColorIn::PrevColor);
    assert_eq!(m.inputs[2], TevColorIn::TexColor);
    let s = TevStageAlpha::sub(TevAlphaIn::TexAlpha, TevAlphaIn::PrevAlpha);
    assert_eq!(s.op, TevOp::Sub);
    assert_eq!(s.inputs, [TevAlphaIn::PrevAlpha, TevAlphaIn::Constant0, TevAlphaIn::Constant0, TevAlphaIn::TexAlpha]);
    let g = TevStageColor::comp_r8_gt(TevColorIn::PrevColor, TevColorIn::TexColor, TevColorIn::RasColor);
    assert_eq!(g.op, TevOp::CompR8Gt);
    assert_eq!(g.inputs[3], TevColorIn::Constant0);
    let p = TevStageAlpha::pass();
    assert_eq!(p.inputs[3], TevAlphaIn::PrevAlpha);
    assert_eq!(TevStageColor::zero().with_scale(TevScale::K2).scale, TevScale::K2);
}

#[test]
fn shader_loads_in_order() {
    let stages = tev_builder()
        .add_stage(
            TevStage::color_only(TevStageColor::just(TevColorIn::TexColor).with_scale(TevScale::K2))
                .with_tex_coord(TevTexCoord::TexCoord0)
                .with_tex_map(TevTexMap::TEXMAP0()),
        )
        .add_stage(TevStage::new(
            TevStageColor::mul(TevColorIn::PrevColor, TevColorIn::TexColor),
            TevStageAlpha::just(TevAlphaIn::TexAlpha),
        ))
        .build();
    let mut shader = Shader::default();
    shader.stages = stages;
    shader.tex_gens[0] = Some(TexGen::new(TexGenType::Mtx2x4, TexGenSrc::Tex0, TexMtxIndex::IDENTITY()));
    assert_eq!(shader.num_tev_stages(), 2);
    assert_eq!(shader.num_tex_gens(), 1);
    assert!(shader.is_loadable());
    let commands = shader.apply();
    assert_eq!(commands[0], GxCommand::SetNumTevStages(2));
    assert_eq!(
        commands[1],
        GxCommand::SetTevColorIn { stage: 0, a: 0x0f, b: 0x0f, c: 0x0f, d: 0x08 }
    );
    // 1 + 2 stages * 6 + channels + generator count + 2 for the generator + 4 swap entries.
    assert_eq!(commands.len(), 1 + 12 + 2 + 2 + 4);
    assert_eq!(commands[13], GxCommand::SetNumChans(0));
    assert_eq!(commands[14], GxCommand::SetNumTexGens(1));
    assert_eq!(
        commands[20],
        GxCommand::SetTevSwapModeTable { index: 3, red: 0, green: 1, blue: 2, alpha: 3 }
    );
}

#[test]
fn gaps_are_not_loadable_and_make_slow_fills_them() {
    let mut shader = Shader::default();
    assert_eq!(shader.num_tev_stages(), 0);
    shader.stages[1] = Some(TevStage::pass());
    assert!(!shader.is_loadable());
    let slow = shader.make_slow();
    assert_eq!(slow.num_tev_stages(), 16);
    assert!(slow.is_loadable());
    assert!(Shader::make_stage_slow(None).is_some());
}
