use gfx::dictionary::{NamedCell, ParamDictionary, ParamDictionaryLink};
use gfx::param::{ParamValues, ParameterError, ParameterLinkError, ShaderParam};
use gfx::program::{BlockVar, BufferHandle, ProgramHandle, SamplerHandle, SamplerVar, TextureHandle, UniformVar};
use gfx::shell::{CustomShell, ProgramShell};
use gfx::uniform::{Float32, ToUniform, UniformValue};
use std::rc::Rc;

fn f(x: f32) -> Float32 {
    Float32 { bits: x.to_bits() }
}

fn matrix(scale: f32) -> [[Float32; 4]; 4] {
    let mut m = [[f(0.0); 4]; 4];
    for i in 0..4 {
        m[i][i] = f(scale);
    }
    m
}

fn program(uniforms: &[&str], blocks: &[&str], textures: &[&str]) -> ProgramHandle {
    ProgramHandle {
        name: 7,
        uniforms: uniforms.iter().map(|n| UniformVar { name: n.to_string() }).collect(),
        blocks: blocks.iter().map(|n| BlockVar { name: n.to_string() }).collect(),
        textures: textures.iter().map(|n| SamplerVar { name: n.to_string() }).collect(),
    }
}

fn cell<T>(name: &str, value: T) -> NamedCell<T> {
    NamedCell { name: name.to_string(), value }
}

fn texture(id: u32, sampler: Option<u32>) -> (TextureHandle, Option<SamplerHandle>) {
    (TextureHandle { id }, sampler.map(|id| SamplerHandle { id }))
}

fn mvp_tex_dictionary() -> ParamDictionary {
    ParamDictionary {
        uniforms: vec![cell("mvp", matrix(1.0).to_uniform())],
        blocks: vec![],
        textures: vec![cell("tex", texture(3, Some(4)))],
    }
}

#[test]
fn conversions_keep_the_value() {
    assert_eq!(5i32.to_uniform(), UniformValue::ValueI32(5));
    assert_eq!(f(1.5).to_uniform(), UniformValue::ValueF32(Float32 { bits: 1.5f32.to_bits() }));
    assert_eq!([1, 2, 3, 4].to_uniform(), UniformValue::ValueI32Vec([1, 2, 3, 4]));
    let v = [f(0.5), f(-1.0), f(2.0), f(0.0)];
    assert_eq!(v.to_uniform(), UniformValue::ValueF32Vec(v));
    assert_eq!(matrix(2.0).to_uniform(), UniformValue::ValueF32Matrix(matrix(2.0)));
}

#[test]
fn unit_source_links_a_program_without_inputs() {
    let p = program(&[], &[], &[]);
    let link = ().create_link(p.link_input());
    assert_eq!(link, Ok(()));
    let mut out = ParamValues::new(&p);
    ().fill_params(&(), &mut out);
    assert!(out.uniforms.is_empty() && out.blocks.is_empty() && out.textures.is_empty());
}

#[test]
fn unit_source_refuses_a_uniform() {
    let p = program(&["color"], &["lights"], &["tex"]);
    let err = ().create_link(p.link_input()).unwrap_err();
    assert_eq!(
        err,
        ParameterLinkError::ErrorMissingParameter(ParameterError::ErrorUniform("_".to_string()))
    );
}

#[test]
fn unit_source_refuses_a_block_then_a_texture() {
    let p = program(&[], &["lights"], &["tex"]);
    assert_eq!(
        ().create_link(p.link_input()),
        Err(ParameterLinkError::ErrorMissingParameter(ParameterError::ErrorBlock("_".to_string())))
    );
    let p = program(&[], &[], &["tex"]);
    assert_eq!(
        ().create_link(p.link_input()),
        Err(ParameterLinkError::ErrorMissingParameter(ParameterError::ErrorTexture("_".to_string())))
    );
}

#[test]
fn dictionary_fills_matrix_and_texture() {
    let dict = mvp_tex_dictionary();
    let p = program(&["mvp"], &[], &["tex"]);
    let link: ParamDictionaryLink = (&dict).create_link(p.link_input()).unwrap();
    let mut out = ParamValues::new(&p);
    assert_eq!(out.uniforms, vec![None]);
    (&dict).fill_params(&link, &mut out);
    assert_eq!(out.uniforms, vec![Some(UniformValue::ValueF32Matrix(matrix(1.0)))]);
    assert!(out.blocks.is_empty());
    assert_eq!(out.textures, vec![Some(texture(3, Some(4)))]);
}

#[test]
fn dictionary_fill_reads_values_at_fill_time() {
    let mut dict = mvp_tex_dictionary();
    let p = program(&["mvp"], &[], &["tex"]);
    let link = (&dict).create_link(p.link_input()).unwrap();
    dict.set_uniform(0, matrix(3.0).to_uniform());
    dict.set_texture(0, texture(9, None));
    let mut out = ParamValues::new(&p);
    (&dict).fill_params(&link, &mut out);
    assert_eq!(out.uniforms, vec![Some(UniformValue::ValueF32Matrix(matrix(3.0)))]);
    assert_eq!(out.textures, vec![Some(texture(9, None))]);
}

#[test]
fn dictionary_missing_uniform_is_named() {
    let dict = mvp_tex_dictionary();
    let p = program(&["mvp", "light_pos", "fog"], &[], &["tex"]);
    assert_eq!(
        (&dict).create_link(p.link_input()).unwrap_err(),
        ParameterLinkError::ErrorMissingParameter(ParameterError::ErrorUniform("light_pos".to_string()))
    );
}

#[test]
fn dictionary_missing_block_and_texture_are_named() {
    let dict = mvp_tex_dictionary();
    let p = program(&["mvp"], &["lights"], &["shadow"]);
    assert_eq!(
        (&dict).create_link(p.link_input()),
        Err(ParameterLinkError::ErrorMissingParameter(ParameterError::ErrorBlock("lights".to_string())))
    );
    let p = program(&["mvp"], &[], &["tex", "shadow"]);
    assert_eq!(
        (&dict).create_link(p.link_input()),
        Err(ParameterLinkError::ErrorMissingParameter(ParameterError::ErrorTexture("shadow".to_string())))
    );
}

#[test]
fn dictionary_names_are_exact_and_first_match_wins() {
    let dict = ParamDictionary {
        uniforms: vec![cell("Scale", 1i32.to_uniform()), cell("scale", 2i32.to_uniform()), cell("scale", 3i32.to_uniform())],
        blocks: vec![cell("lights", BufferHandle { id: 11 })],
        textures: vec![],
    };
    let p = program(&["scale", "Scale"], &["lights"], &[]);
    let link = (&dict).create_link(p.link_input()).unwrap();
    let mut out = ParamValues::new(&p);
    (&dict).fill_params(&link, &mut out);
    assert_eq!(out.uniforms, vec![Some(UniformValue::ValueI32(2)), Some(UniformValue::ValueI32(1))]);
    assert_eq!(out.blocks, vec![Some(BufferHandle { id: 11 })]);
    let p = program(&["SCALE"], &[], &[]);
    assert_eq!(
        (&dict).create_link(p.link_input()),
        Err(ParameterLinkError::ErrorMissingParameter(ParameterError::ErrorUniform("SCALE".to_string())))
    );
}

#[test]
fn dictionary_fill_is_repeatable() {
    let dict = mvp_tex_dictionary();
    let p = program(&["mvp", "mvp"], &[], &["tex"]);
    let link = (&dict).create_link(p.link_input()).unwrap();
    let mut first = ParamValues::new(&p);
    (&dict).fill_params(&link, &mut first);
    let mut second = ParamValues::new(&p);
    (&dict).fill_params(&link, &mut second);
    assert_eq!(first, second);
    let mut again = first.clone();
    (&dict).fill_params(&link, &mut again);
    assert_eq!(again, first);
}

#[test]
fn set_block_changes_only_that_cell() {
    let mut dict = ParamDictionary {
        uniforms: vec![],
        blocks: vec![cell("a", BufferHandle { id: 1 }), cell("b", BufferHandle { id: 2 })],
        textures: vec![],
    };
    dict.set_block(1, BufferHandle { id: 5 });
    assert_eq!(dict.blocks[0].value, BufferHandle { id: 1 });
    assert_eq!(dict.blocks[1].value, BufferHandle { id: 5 });
    assert_eq!(dict.blocks[1].name, "b");
}

#[test]
fn shared_dictionary_is_seen_by_both_shells() {
    let mut dict = mvp_tex_dictionary();
    dict.uniforms.push(cell("time", f(0.0).to_uniform()));
    let p1 = program(&["mvp", "time"], &[], &[]);
    let p2 = program(&["time"], &[], &["tex"]);
    let dict = Rc::new(dict);
    let shell1 = CustomShell::connect(p1.clone(), dict.clone()).unwrap();
    let shell2 = CustomShell::connect(p2.clone(), dict.clone()).unwrap();
    assert!(Rc::ptr_eq(&shell1.data, &shell2.data));
    let mut out1 = ParamValues::new(shell1.get_program());
    let mut out2 = ParamValues::new(shell2.get_program());
    shell1.fill_params(&mut out1);
    shell2.fill_params(&mut out2);
    assert_eq!(out1.uniforms[1], Some(UniformValue::ValueF32(f(0.0))));
    assert_eq!(out2.uniforms[0], out1.uniforms[1]);
    assert_eq!(out2.textures, vec![Some(texture(3, Some(4)))]);
}

#[test]
fn links_made_before_an_update_see_it() {
    let mut dict = mvp_tex_dictionary();
    dict.uniforms.push(cell("time", f(0.0).to_uniform()));
    let p1 = program(&["mvp", "time"], &[], &[]);
    let p2 = program(&["time"], &[], &["tex"]);
    let link1 = (&dict).create_link(p1.link_input()).unwrap();
    let link2 = (&dict).create_link(p2.link_input()).unwrap();
    dict.set_uniform(1, f(0.25).to_uniform());
    let mut out1 = ParamValues::new(&p1);
    let mut out2 = ParamValues::new(&p2);
    (&dict).fill_params(&link1, &mut out1);
    (&dict).fill_params(&link2, &mut out2);
    assert_eq!(out1.uniforms[1], Some(UniformValue::ValueF32(f(0.25))));
    assert_eq!(out2.uniforms[0], Some(UniformValue::ValueF32(f(0.25))));
}

#[test]
fn rc_dictionary_binds_like_the_dictionary() {
    let dict = Rc::new(mvp_tex_dictionary());
    let p = program(&["mvp"], &[], &["tex", "missing"]);
    assert_eq!(
        dict.create_link(p.link_input()),
        Err(ParameterLinkError::ErrorMissingParameter(ParameterError::ErrorTexture("missing".to_string())))
    );
    let p = program(&["mvp"], &[], &["tex"]);
    let link = dict.create_link(p.link_input()).unwrap();
    let mut a = ParamValues::new(&p);
    let mut b = ParamValues::new(&p);
    dict.fill_params(&link, &mut a);
    (&*dict).fill_params(&link, &mut b);
    assert_eq!(a, b);
}

#[test]
fn custom_shell_holds_its_parts() {
    let dict = mvp_tex_dictionary();
    let p = program(&["mvp"], &[], &[]);
    let link = (&dict).create_link(p.link_input()).unwrap();
    let shell = CustomShell::new(p.clone(), link, &dict);
    assert_eq!(shell.get_program(), &p);
    let mut out = ParamValues::new(&p);
    shell.fill_params(&mut out);
    assert_eq!(out.uniforms, vec![Some(UniformValue::ValueF32Matrix(matrix(1.0)))]);
}

#[test]
fn connect_reports_the_link_error() {
    let dict = mvp_tex_dictionary();
    let p = program(&["view"], &[], &[]);
    let r = CustomShell::connect(p, &dict);
    assert_eq!(
        r.err(),
        Some(ParameterLinkError::ErrorMissingParameter(ParameterError::ErrorUniform("view".to_string())))
    );
}

#[test]
fn bare_program_is_its_own_shell() {
    let p = program(&[], &[], &[]);
    assert_eq!(p.get_program(), &p);
    let mut out = ParamValues::new(&p);
    p.fill_params(&mut out);
    assert_eq!(out, ParamValues { uniforms: vec![], blocks: vec![], textures: vec![] });
}
