use runtime::render::api::{
    resolve_attribute, resolve_uniform, AttributeKey, AttributeRef, Call, RenderAPI,
    RenderApiError, Rgba, UniformKey, UniformRef,
};
use runtime::render::builder::BuildError;
use runtime::render::constants::{
    BlendFuncFactor, BufferKind, ClearMask, DrawArrayKind, DrawKind, HasBlendFuncFactor,
    HasBufferKind, HasClearMaskKind, HasDrawArrayKind, HasDrawKind, HasViewPrecision,
    ViewPrecision,
};
use runtime::render::data::{DataViewError, Float32View, TypedView};
use runtime::render::recorder::RecordingRenderAPI;
use runtime::render_loop::{get_view_data, RenderLoop, RenderLoopError, VertexAttributes, VertexUniforms};
use runtime::geometry::grid_points;

fn stub() -> RecordingRenderAPI {
    RecordingRenderAPI::new(
        vec![("normal".to_string(), 0), ("position".to_string(), 1)],
        vec![("resolution".to_string(), 0)],
        false,
    )
}

#[test]
fn declared_symbols_resolve() {
    let api = stub();
    assert!(matches!(api.get_attribute(&VertexAttributes::Position), Ok(1)));
    assert!(matches!(api.get_uniform(&VertexUniforms::Resolution), Ok(0)));
    let elsewhere = RecordingRenderAPI::new(
        vec![("position".to_string(), 9)],
        vec![("resolution".to_string(), 4)],
        false,
    );
    assert!(matches!(elsewhere.get_attribute(&VertexAttributes::Position), Ok(9)));
    assert!(matches!(elsewhere.get_uniform(&VertexUniforms::Resolution), Ok(4)));
}

#[test]
fn undeclared_symbols_fail_with_their_name() {
    let api = RecordingRenderAPI::new(vec![("normal".to_string(), 0)], vec![], false);
    match api.get_attribute(&VertexAttributes::Position) {
        Err(RenderApiError::InvalidAttributeName(n)) => assert_eq!(n, "position"),
        _ => panic!("expected a missing attribute"),
    }
    match api.get_uniform(&VertexUniforms::Resolution) {
        Err(RenderApiError::InvalidUniformName(n)) => assert_eq!(n, "resolution"),
        _ => panic!("expected a missing uniform"),
    }
}

#[test]
fn resolved_indices_skip_lookup() {
    let empty = RecordingRenderAPI::new(vec![], vec![], false);
    assert!(matches!(
        resolve_attribute(&empty, AttributeRef::<VertexAttributes>::Index(7)),
        Ok(7)
    ));
    assert!(matches!(
        resolve_uniform(&empty, UniformRef::<VertexUniforms, u32>::Location(3)),
        Ok(3)
    ));
    assert!(matches!(
        resolve_uniform(&empty, UniformRef::<VertexUniforms, u32>::Key(VertexUniforms::Resolution)),
        Err(RenderApiError::InvalidUniformName(_))
    ));
    let api = stub();
    assert!(matches!(
        resolve_attribute(&api, AttributeRef::Key(VertexAttributes::Position)),
        Ok(1)
    ));
}

#[test]
fn repeated_names_resolve_to_first() {
    let api = RecordingRenderAPI::new(
        vec![("position".to_string(), 5), ("position".to_string(), 2)],
        vec![],
        false,
    );
    assert!(matches!(api.get_attribute(&VertexAttributes::Position), Ok(5)));
}

#[test]
fn failed_lookup_issues_no_call() {
    let mut api = RecordingRenderAPI::new(vec![], vec![], false);
    let r = api.enable_vertex_attrib_array(AttributeRef::Key(VertexAttributes::Position));
    assert!(matches!(r, Err(RenderApiError::InvalidAttributeName(_))));
    let r = api.uniform2f(UniformRef::Key(VertexUniforms::Resolution), 1, 2);
    assert!(matches!(r, Err(RenderApiError::InvalidUniformName(_))));
    assert!(api.history().is_empty());
    assert!(api.enable_vertex_attrib_array(AttributeRef::<VertexAttributes>::Index(4)).is_ok());
    assert!(matches!(api.history()[0], Call::EnableVertexAttribArray(4)));
    let taken = api.take_history();
    assert_eq!(taken.len(), 1);
    assert!(api.history().is_empty());
}

#[test]
fn stub_records_calls() {
    let mut api = stub();
    let color = Rgba { red: 1, green: 2, blue: 3, alpha: 4 };
    api.blend_color(color);
    api.blend_func(BlendFuncFactor::SrcAlpha, BlendFuncFactor::OneMinusSrcAlpha);
    api.set_viewport(0, 0, 10, 20);
    let h = api.history();
    assert_eq!(h.len(), 3);
    assert!(matches!(h[0], Call::BlendColor(c) if c == color));
    assert!(matches!(
        h[1],
        Call::BlendFunc(BlendFuncFactor::SrcAlpha, BlendFuncFactor::OneMinusSrcAlpha)
    ));
    assert!(matches!(h[2], Call::SetViewport(0, 0, 10, 20)));
}

#[test]
fn refused_buffer_creation() {
    let mut api = RecordingRenderAPI::new(vec![], vec![], true);
    assert!(matches!(
        api.create_buffer(BufferKind::ArrayBuffer),
        Err(RenderApiError::FailedToCreateBuffer)
    ));
    assert!(api.history().is_empty());
}

#[test]
fn view_update_replaces_everything() {
    let mut view = Float32View::create(grid_points(100, 60, 2, 1)).ok().unwrap();
    assert_eq!(view.length(), 36);
    assert_eq!(view.scale(), 320);
    assert!(view.update_data(grid_points(50, 50, 3, 1)).is_ok());
    assert_eq!(view.length(), 54);
    assert_eq!(view.scale(), 720);
    assert_eq!(view.object(), &grid_points(50, 50, 3, 1).coords[..]);
    assert!(matches!(view.get_precision(), ViewPrecision::Float));
    assert_eq!(view.view_precision_constant(), 5126);
}

#[test]
fn gl_constants() {
    assert_eq!(DrawKind::StaticDraw.draw_kind_constant(), 35044);
    assert_eq!(DrawArrayKind::Triangles.draw_array_kind_constant(), 4);
    assert_eq!(ClearMask::ColorBufferBit.clear_mask_constant(), 16384);
    assert_eq!(BufferKind::ArrayBuffer.buffer_kind_constant(), 34962);
    assert_eq!(BufferKind::ElementBuffer.buffer_kind_constant(), 34963);
    assert_eq!(ViewPrecision::Float.view_precision_constant(), 5126);
    assert_eq!(BlendFuncFactor::OneMinusConstantAlpha.blend_func_factor_constant(), 32772);
}

#[test]
fn error_messages() {
    assert_eq!(RenderApiError::FailedToCreateBuffer.to_string(), "Failed to create buffer");
    assert_eq!(
        RenderApiError::InvalidAttributeName("position".to_string()).to_string(),
        "Invalid attribute name, position"
    );
    assert_eq!(
        RenderApiError::InvalidUniformName("resolution".to_string()).to_string(),
        "Invalid uniform name, resolution"
    );
    assert_eq!(DataViewError::FailedToCreateMemory.to_string(), "Failed to create memory");
    assert_eq!(
        RenderLoopError::DataViewError(DataViewError::FailedToCreateMemory).to_string(),
        "render_loop DataViewError: Failed to create memory"
    );
    assert_eq!(
        RenderLoopError::RenderApiError(RenderApiError::FailedToCreateBuffer).to_string(),
        "render_loop RenderApiError: Failed to create buffer"
    );
    assert_eq!(
        BuildError::FailedToCompileShader(Some("line 3".to_string())).to_string(),
        "failed to compile shader: line 3"
    );
    assert_eq!(
        BuildError::FailedToCompileShader(None).to_string(),
        "failed to compile shader, for an unknown reason"
    );
    assert_eq!(BuildError::FailedToLinkProgram.to_string(), "failed to link program");
}

#[test]
fn loop_keys() {
    assert_eq!(AttributeKey::name(&VertexAttributes::Position), "position");
    assert_eq!(UniformKey::name(&VertexUniforms::Resolution), "resolution");
}

#[test]
fn create_then_draw() {
    let mut l = RenderLoop::create(stub(), 300, 150).ok().unwrap();
    {
        let h = l.context().history();
        assert_eq!(h.len(), 5);
        assert!(matches!(h[0], Call::CreateBuffer(BufferKind::ArrayBuffer)));
        match &h[1] {
            Call::BindBuffer { target, usage, precision, scale, data } => {
                assert_eq!(*target, 34962);
                assert!(matches!(usage, DrawKind::StaticDraw));
                assert!(matches!(precision, ViewPrecision::Float));
                assert_eq!(*scale, 80 * 144);
                assert_eq!(data, &get_view_data(300, 150).coords);
            }
            _ => panic!("expected an upload"),
        }
        assert!(matches!(
            h[2],
            Call::VertexAttribPointer {
                index: 1,
                size: 3,
                precision: ViewPrecision::Float,
                normalized: false,
                stride: 0,
                offset: 0
            }
        ));
        assert!(matches!(h[3], Call::EnableVertexAttribArray(1)));
        assert!(matches!(h[4], Call::Uniform2f(0, 300, 150)));
    }
    l.draw();
    let h = l.context().history();
    assert_eq!(h.len(), 8);
    assert!(matches!(
        h[5],
        Call::ClearColor(Rgba { red: 0, green: 0, blue: 0, alpha: 255 })
    ));
    assert!(matches!(h[6], Call::Clear(ClearMask::ColorBufferBit)));
    assert!(matches!(h[7], Call::DrawArrays(DrawArrayKind::Triangles, 0, 216)));
}

#[test]
fn update_viewport_regenerates_grid() {
    let mut l = RenderLoop::create(stub(), 300, 150).ok().unwrap();
    let before = l.view().length();
    assert!(l.update_viewport(600, 150).is_ok());
    assert_eq!(l.view().length(), before);
    assert_eq!(l.view().object(), &get_view_data(600, 150).coords[..]);
    let h = l.context().history();
    assert_eq!(h.len(), 8);
    assert!(matches!(h[5], Call::SetViewport(0, 0, 600, 150)));
    match &h[6] {
        Call::BindBuffer { target, data, .. } => {
            assert_eq!(*target, 34962);
            assert_eq!(data, &get_view_data(600, 150).coords);
        }
        _ => panic!("expected an upload"),
    }
    assert!(matches!(h[7], Call::Uniform2f(0, 600, 150)));
    l.draw();
    assert!(matches!(
        l.context().history()[10],
        Call::DrawArrays(DrawArrayKind::Triangles, 0, 216)
    ));
    let taken = l.take_calls();
    assert_eq!(taken.len(), 11);
    assert!(l.context().history().is_empty());
    l.draw();
    assert_eq!(l.take_calls().len(), 3);
}

#[test]
fn create_fails_on_missing_symbols() {
    let no_position =
        RecordingRenderAPI::new(vec![], vec![("resolution".to_string(), 0)], false);
    match RenderLoop::create(no_position, 10, 10) {
        Err(RenderLoopError::RenderApiError(RenderApiError::InvalidAttributeName(n))) => {
            assert_eq!(n, "position")
        }
        _ => panic!("expected a missing attribute"),
    }
    let no_resolution =
        RecordingRenderAPI::new(vec![("position".to_string(), 0)], vec![], false);
    match RenderLoop::create(no_resolution, 10, 10) {
        Err(RenderLoopError::RenderApiError(RenderApiError::InvalidUniformName(n))) => {
            assert_eq!(n, "resolution")
        }
        _ => panic!("expected a missing uniform"),
    }
    let refusing = RecordingRenderAPI::new(
        vec![("position".to_string(), 0)],
        vec![("resolution".to_string(), 0)],
        true,
    );
    assert!(matches!(
        RenderLoop::create(refusing, 10, 10),
        Err(RenderLoopError::RenderApiError(RenderApiError::FailedToCreateBuffer))
    ));
}
