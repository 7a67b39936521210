//! Shader sources: the fixed vertex shader, and the fragment shader built
//! from a Shadertoy-style `mainImage` source between a prefix that declares
//! the uniforms and a suffix that calls it.

use vstd::prelude::*;
use vstd::string::StringSliceAdditionalSpecFns;

verus! {

/// Declarations put before a fragment source: the uniforms and the channel
/// textures, at the bindings where the renderer places them.
pub const PREFIX: &'static str = "
#version 440 core

layout(binding=0) uniform float      iGlobalTime;
layout(binding=1) uniform float      iTime;
layout(binding=2) uniform vec3       iResolution;
layout(binding=3) uniform vec4       iMouse;
layout(binding=4) uniform int        iFrame;

layout(binding=5) uniform texture2D  iChannel0_tex;
layout(binding=6) uniform sampler    iChannel0_sam;
layout(binding=7) uniform texture2D  iChannel1_tex;
layout(binding=8) uniform sampler    iChannel1_sam;
layout(binding=9) uniform texture2D  iChannel2_tex;
layout(binding=10) uniform sampler   iChannel2_sam;
layout(binding=11) uniform texture2D iChannel3_tex;
layout(binding=12) uniform sampler   iChannel3_sam;

layout(location=0) in vec2 fragCoord;
layout(location=0) out vec4 fragColor;

#define iChannel0  sampler2D(iChannel0_tex, iChannel0_sam)
#define iChannel1  sampler2D(iChannel1_tex, iChannel1_sam)
#define iChannel2  sampler2D(iChannel2_tex, iChannel2_sam)
#define iChannel3  sampler2D(iChannel3_tex, iChannel3_sam)
";

/// The entry point put after a fragment source.
pub const SUFFIX: &'static str = "
void main() {
    fragColor = vec4(1, 1, 0, 0);
    mainImage(fragColor, fragCoord);
}
";

/// The vertex shader: a full-screen quad whose fragment coordinates are in
/// pixels, as `mainImage` expects.
pub const DEFAULT_VERT_SRC: &'static str = "
#version 440 core

layout(binding=2) uniform vec3 iResolution;

layout(location=0) in vec2 position;
layout(location=0) out vec2 fragCoord;

void main() {
    fragCoord = (position + vec2(1)) / vec2(2) * iResolution.xy;
    gl_Position = vec4(position, 0, 1);
}
";

/// The fragment source drawn when none is given: colours cycling with time
/// and brightened by the audio energies.
pub const DEFAULT_FRAG_SRC: &'static str = "
void mainImage(out vec4 fragColor, in vec2 fragCoord) {
    vec2 uv = fragCoord / iResolution.xy;
    vec3 col = (vec3(1) + cos(vec3(iTime) + uv.xyx + vec3(0, 2, 4))) / vec3(2);
    col = col * (vec3(1) + vec3(iMouse.x, iMouse.y, iMouse.x));
    fragColor = vec4(col, 1);
}
";

/// The full fragment shader for a `mainImage` source.
pub open spec fn shader_text(src: Seq<char>) -> Seq<char> {
    PREFIX@ + "\n"@ + src + "\n"@ + SUFFIX@
}

/// Puts a `mainImage` source between the uniform declarations and the
/// entry point.
pub fn format_shader_src(src: &str) -> (r: String)
    ensures
        r@ == shader_text(src@),
{
    let mut r = String::from_str(PREFIX);
    r.append("\n");
    r.append(src);
    r.append("\n");
    r.append(SUFFIX);
    r
}

/// The vertex shader's source.
pub fn load_vertex_shader() -> (r: &'static str)
    ensures
        r@ == DEFAULT_VERT_SRC@,
{
    DEFAULT_VERT_SRC
}

/// Uniforms that the renderer does not provide, in the order in which an
/// error lists them.
pub open spec fn unsupported_names() -> Seq<&'static str> {
    seq!["iTimeDelta", "iChannelTime", "iChannelResolution", "iDate", "iSampleRate"]
}

/// Whether `needle` occurs in `hay` at position `i`.
pub open spec fn occurs_at<T>(needle: Seq<T>, hay: Seq<T>, i: int) -> bool {
    0 <= i && i + needle.len() <= hay.len() && hay.subrange(i, i + needle.len()) == needle
}

/// Whether `needle` occurs anywhere in `hay`.
pub open spec fn occurs_in<T>(needle: Seq<T>, hay: Seq<T>) -> bool {
    exists|i: int| occurs_at(needle, hay, i)
}

/// The unsupported uniforms among the first `n` that `src` mentions.
pub open spec fn mentioned_unsupported(src: Seq<u8>, n: nat) -> Seq<&'static str>
    decreases n,
{
    if n == 0 {
        Seq::empty()
    } else {
        let prev = mentioned_unsupported(src, (n - 1) as nat);
        let name = unsupported_names()[n - 1];
        if occurs_in(name.spec_bytes(), src) {
            prev.push(name)
        } else {
            prev
        }
    }
}

/// A name between double quotes.
pub open spec fn quoted(name: Seq<char>) -> Seq<char> {
    "\""@ + name + "\""@
}

/// Quoted names separated by `, `.
pub open spec fn quoted_list(names: Seq<&'static str>) -> Seq<char>
    decreases names.len(),
{
    if names.len() == 0 {
        Seq::empty()
    } else if names.len() == 1 {
        quoted(names[0]@)
    } else {
        quoted_list(names.drop_last()) + ", "@ + quoted(names.last()@)
    }
}

/// The error for a source that mentions the unsupported uniforms `names`.
pub open spec fn unsupported_message(names: Seq<&'static str>) -> Seq<char> {
    "unsupported uniforms: ["@ + quoted_list(names) + "]"@
}

/// Whether `needle` occurs in `hay`, byte for byte.
pub fn contains_bytes(hay: &[u8], needle: &[u8]) -> (r: bool)
    ensures
        r == occurs_in(needle@, hay@),
{
    let h = hay.len();
    let n = needle.len();
    if n > h {
        assert forall|i: int| !occurs_at(needle@, hay@, i) by {}
        return false;
    }
    if n == 0 {
        assert(hay@.subrange(0, 0) =~= needle@);
        assert(occurs_at(needle@, hay@, 0));
        return true;
    }
    let mut i: usize = 0;
    while i <= h - n
        invariant
            1 <= n <= h,
            h == hay@.len(),
            n == needle@.len(),
            forall|k: int| 0 <= k < i ==> !occurs_at(needle@, hay@, k),
        decreases h - n + 1 - i,
    {
        let mut j: usize = 0;
        let mut same = true;
        while j < n
            invariant
                i + n <= h,
                h == hay@.len(),
                n == needle@.len(),
                j <= n,
                same ==> forall|t: int| 0 <= t < j ==> hay@[i + t] == needle@[t],
                !same ==> !occurs_at(needle@, hay@, i as int),
            decreases n - j,
        {
            if hay[i + j] != needle[j] {
                if same {
                    assert(hay@.subrange(i as int, i + n)[j as int] != needle@[j as int]);
                }
                same = false;
            }
            j = j + 1;
        }
        if same {
            assert(hay@.subrange(i as int, i + n) =~= needle@);
            assert(occurs_at(needle@, hay@, i as int));
            return true;
        }
        i = i + 1;
    }
    assert forall|k: int| !occurs_at(needle@, hay@, k) by {
        if 0 <= k && k + n <= h {
            assert(k < i);
        }
    }
    false
}

/// The uniforms, of those the renderer does not provide, that `src` mentions.
pub fn unsupported_uniforms(src: &str) -> (r: Vec<&'static str>)
    ensures
        r@ == mentioned_unsupported(src.spec_bytes(), 5),
{
    let names: Vec<&'static str> = vec!["iTimeDelta", "iChannelTime", "iChannelResolution", "iDate", "iSampleRate"];
    assert(names@ == unsupported_names());
    let bytes = src.as_bytes();
    let mut found: Vec<&'static str> = Vec::new();
    let mut i: usize = 0;
    while i < names.len()
        invariant
            names@ == unsupported_names(),
            bytes@ == src.spec_bytes(),
            i <= 5,
            found@ == mentioned_unsupported(src.spec_bytes(), i as nat),
        decreases 5 - i,
    {
        let name = names[i];
        if contains_bytes(bytes, name.as_bytes()) {
            found.push(name);
        }
        i = i + 1;
    }
    found
}

/// The error text for the unsupported uniforms `names`.
fn unsupported_error(names: &Vec<&'static str>) -> (r: String)
    ensures
        r@ == unsupported_message(names@),
{
    let mut r = String::from_str("unsupported uniforms: [");
    let mut i: usize = 0;
    while i < names.len()
        invariant
            i <= names@.len(),
            r@ == "unsupported uniforms: ["@ + quoted_list(names@.subrange(0, i as int)),
        decreases names@.len() - i,
    {
        let ghost before = r@;
        if i > 0 {
            r.append(", ");
        }
        r.append("\"");
        r.append(names[i]);
        r.append("\"");
        proof {
            let s = names@.subrange(0, i + 1);
            assert(s.drop_last() =~= names@.subrange(0, i as int));
            if i == 0 {
                assert(quoted_list(names@.subrange(0, 0)) =~= Seq::<char>::empty());
                assert(r@ =~= "unsupported uniforms: ["@ + quoted_list(s));
            } else {
                assert(r@ =~= "unsupported uniforms: ["@ + quoted_list(s));
            }
        }
        i = i + 1;
    }
    proof {
        assert(names@.subrange(0, i as int) =~= names@);
    }
    r.append("]");
    r
}

/// The fragment shader for a `mainImage` source, or an error naming the
/// unsupported uniforms that the source mentions.
pub fn load_fragment_shader(src: &str) -> (r: Result<String, String>)
    ensures
        mentioned_unsupported(src.spec_bytes(), 5).len() == 0 ==> r is Ok && r->Ok_0@ == shader_text(
            src@,
        ),
        mentioned_unsupported(src.spec_bytes(), 5).len() > 0 ==> r is Err && r->Err_0@
            == unsupported_message(mentioned_unsupported(src.spec_bytes(), 5)),
{
    let found = unsupported_uniforms(src);
    if found.len() == 0 {
        Ok(format_shader_src(src))
    } else {
        Err(unsupported_error(&found))
    }
}

} // verus!
