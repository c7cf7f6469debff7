use shape_transition::render::{
    Binding, Draw, RenderStep, ResourceNotReady, TransitionNode, TransitionPipeline,
};

fn step(
    pipeline: Option<&'static str>,
    settings: Option<u8>,
    globals: Option<char>,
) -> RenderStep<&'static str, u8, char> {
    TransitionNode.run(pipeline, settings, globals)
}

fn skipped(step: RenderStep<&'static str, u8, char>) -> Option<ResourceNotReady> {
    match step {
        RenderStep::Skip(missing) => Some(missing),
        RenderStep::Draw(_) => None,
    }
}

#[test]
fn pipeline_binds_texture_sampler_settings_and_globals() {
    let pipeline = TransitionPipeline::new();
    assert_eq!(
        pipeline.layout(),
        &vec![Binding::SourceTexture, Binding::Sampler, Binding::Settings, Binding::Globals]
    );
}

#[test]
fn frame_without_compiled_pipeline_is_skipped() {
    assert_eq!(skipped(step(None, Some(1), Some('g'))), Some(ResourceNotReady::Pipeline));
    assert_eq!(skipped(step(None, None, None)), Some(ResourceNotReady::Pipeline));
}

#[test]
fn frame_without_settings_binding_is_skipped() {
    assert_eq!(skipped(step(Some("p"), None, Some('g'))), Some(ResourceNotReady::Uniform));
    assert_eq!(skipped(step(Some("p"), None, None)), Some(ResourceNotReady::Uniform));
}

#[test]
fn frame_without_globals_binding_is_skipped() {
    assert_eq!(skipped(step(Some("p"), Some(1), None)), Some(ResourceNotReady::Globals));
}

#[test]
fn frame_with_everything_draws_one_fullscreen_triangle() {
    match step(Some("p"), Some(7), Some('g')) {
        RenderStep::Draw(Draw { pipeline, settings, globals, vertices, instances }) => {
            assert_eq!(pipeline, "p");
            assert_eq!(settings, 7);
            assert_eq!(globals, 'g');
            assert_eq!(vertices, 3);
            assert_eq!(instances, 1);
        }
        RenderStep::Skip(missing) => panic!("skipped for {:?}", missing),
    }
}

#[test]
fn skipped_frame_is_tried_again() {
    let node = TransitionNode::default();
    assert!(matches!(node.run::<u8, u8, u8>(None, Some(1), Some(2)), RenderStep::Skip(_)));
    assert!(matches!(node.run(Some(0u8), Some(1u8), Some(2u8)), RenderStep::Draw(_)));
}
