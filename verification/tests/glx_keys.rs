use gloof::visual::{
    GLX_ACCUM_ALPHA_SIZE, GLX_ACCUM_BLUE_SIZE, GLX_ACCUM_GREEN_SIZE, GLX_ACCUM_RED_SIZE,
    GLX_ALPHA_SIZE, GLX_AUX_BUFFERS, GLX_BLUE_SIZE, GLX_BUFFER_SIZE, GLX_DEPTH_SIZE,
    GLX_DOUBLEBUFFER, GLX_FBCONFIG_ID, GLX_GREEN_SIZE, GLX_LEVEL, GLX_RED_SIZE, GLX_RGBA,
    GLX_STENCIL_SIZE, GLX_STEREO, GLX_USE_GL,
};

#[test]
fn the_keys_are_those_of_the_glx_bindings() {
    assert_eq!(GLX_USE_GL, x11::glx::GLX_USE_GL);
    assert_eq!(GLX_BUFFER_SIZE, x11::glx::GLX_BUFFER_SIZE);
    assert_eq!(GLX_LEVEL, x11::glx::GLX_LEVEL);
    assert_eq!(GLX_RGBA, x11::glx::GLX_RGBA);
    assert_eq!(GLX_DOUBLEBUFFER, x11::glx::GLX_DOUBLEBUFFER);
    assert_eq!(GLX_STEREO, x11::glx::GLX_STEREO);
    assert_eq!(GLX_AUX_BUFFERS, x11::glx::GLX_AUX_BUFFERS);
    assert_eq!(GLX_RED_SIZE, x11::glx::GLX_RED_SIZE);
    assert_eq!(GLX_GREEN_SIZE, x11::glx::GLX_GREEN_SIZE);
    assert_eq!(GLX_BLUE_SIZE, x11::glx::GLX_BLUE_SIZE);
    assert_eq!(GLX_ALPHA_SIZE, x11::glx::GLX_ALPHA_SIZE);
    assert_eq!(GLX_DEPTH_SIZE, x11::glx::GLX_DEPTH_SIZE);
    assert_eq!(GLX_STENCIL_SIZE, x11::glx::GLX_STENCIL_SIZE);
    assert_eq!(GLX_ACCUM_RED_SIZE, x11::glx::GLX_ACCUM_RED_SIZE);
    assert_eq!(GLX_ACCUM_GREEN_SIZE, x11::glx::GLX_ACCUM_GREEN_SIZE);
    assert_eq!(GLX_ACCUM_BLUE_SIZE, x11::glx::GLX_ACCUM_BLUE_SIZE);
    assert_eq!(GLX_ACCUM_ALPHA_SIZE, x11::glx::GLX_ACCUM_ALPHA_SIZE);
    assert_eq!(GLX_FBCONFIG_ID, x11::glx::GLX_FBCONFIG_ID);
}
