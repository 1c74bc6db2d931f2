//! Shader preparation and the shared shader slot.
//!
//! User shader text defines an image-coloring entry point; a complete
//! fragment-shader unit is produced by prepending the fixed uniform
//! declarations and appending a fixed `main` that forwards the
//! screen-space UV, scaled by the resolution, into that entry point.
//! The slot holds the latest prepared source together with the flag
//! that asks the render loop to recompile it.

use vstd::prelude::*;

verus! {

/// The fixed declarations prepended to user shader text: the version
/// pragma, the precision qualifier and the seven per-frame uniforms.
pub const UNIFORM_PREAMBLE: &'static str = "#version 300 es
precision mediump float;

uniform vec3 iResolution; // image/buffer	The viewport resolution (z is pixel aspect ratio, usually 1.0)
uniform float	iTime; // image/sound/buffer	Current time in seconds
uniform float	iTimeDelta; // image/buffer	Time it takes to render a frame, in seconds
uniform int	iFrame; // image/buffer	Current frame
uniform float	iFrameRate; // image/buffer	Number of frames rendered per second
uniform vec4	iMouse; // image/buffer	xy = current pixel coords (if LMB is down). zw = click pixel
uniform vec4	iDate; // image/buffer/sound	Year, month, day, time in seconds in .xyzw
";

/// The fixed epilogue appended after user shader text: the varying
/// input, the color output, and a `main` that forwards the scaled UV
/// into the user entry point.
pub const MAIN_EPILOGUE: &'static str = "
in vec2 vUv;
out vec4 frag_color;

void main() {
    mainImage(frag_color, vUv * iResolution.xy);
}";

/// The complete fragment-shader unit produced from user shader text.
pub open spec fn spec_prepare(code: Seq<char>) -> Seq<char> {
    UNIFORM_PREAMBLE@ + code + MAIN_EPILOGUE@
}

/// Wraps user shader text into a complete fragment-shader unit. No
/// validation happens here: errors in the user text surface only when
/// the program is compiled and linked.
pub fn prepare_shader(shadertoy_code: &str) -> (r: String)
    ensures
        r@ == spec_prepare(shadertoy_code@),
{
    let s = String::from_str(UNIFORM_PREAMBLE);
    let s = s.concat(shadertoy_code);
    s.concat(MAIN_EPILOGUE)
}

/// The shared shader slot: the latest complete, preamble-wrapped
/// fragment-shader source, plus the flag that requests recompilation.
/// The flag is set exactly by an external shader write and cleared
/// only once the loop has made a reload attempt, whatever its outcome.
#[derive(Debug, Clone)]
pub struct ShaderSlot {
    pub source: String,
    pub reload_requested: bool,
}

/// What an external shader write leaves in the slot: the freshly
/// prepared source (a full replacement, never a merge) with the
/// reload request raised.
pub fn apply_set_shader(new_shader_code: &str) -> (r: ShaderSlot)
    ensures
        r.source@ == spec_prepare(new_shader_code@),
        r.reload_requested,
{
    ShaderSlot { source: prepare_shader(new_shader_code), reload_requested: true }
}

/// Lowers the reload request after the loop has made a reload attempt.
/// The stored source is kept: a failed attempt is not retried until an
/// external caller submits shader text again.
pub fn acknowledge_reload(slot: &mut ShaderSlot)
    ensures
        final(slot).source@ == old(slot).source@,
        !final(slot).reload_requested,
{
    slot.reload_requested = false;
}

/// Reads the prepared source out of the shared slot, if the slot was
/// ever initialized.
pub fn get_shader(slot: &Option<ShaderSlot>) -> (r: Option<String>)
    ensures
        (r matches Some(s) ==> slot matches Some(sl) && s@ == sl.source@),
        (r is None <==> slot is None),
{
    match slot {
        Some(sl) => Some(sl.source.clone()),
        None => None,
    }
}

/// The fragment source a program (re)build must use: the slot's
/// prepared content when any external write ever arrived, else the
/// built-in default shader text, preamble-wrapped.
pub fn shader_source_for_build(slot: &Option<ShaderSlot>, default_code: &str) -> (r: String)
    ensures
        (slot matches Some(sl) ==> r@ == sl.source@),
        (slot is None ==> r@ == spec_prepare(default_code@)),
{
    match get_shader(slot) {
        Some(source) => source,
        None => prepare_shader(default_code),
    }
}

} // verus!
