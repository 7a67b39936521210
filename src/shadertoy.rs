//! What the renderer takes from a Shadertoy listing: the shader id given on
//! the command line, the directory its files are kept in, the request that
//! asks for it, and the texture settings of its input channels.

use crate::shader::occurs_at;
use vstd::prelude::*;

verus! {

/// How a texture is sampled outside its edges.
#[derive(Clone, Copy, Debug, PartialEq, Eq, Structural)]
pub enum WrapMode {
    Repeat,
    ClampToEdge,
    MirrorRepeat,
    ClampToBorder,
}

/// How a texture is filtered.
#[derive(Clone, Copy, Debug, PartialEq, Eq, Structural)]
pub enum FilterMode {
    Nearest,
    Linear,
}

/// The wrap mode that a listing names; `Repeat` for a name it does not know.
pub open spec fn wrap_mode_of(s: Seq<char>) -> WrapMode {
    if s == "repeat"@ {
        WrapMode::Repeat
    } else if s == "clamp"@ {
        WrapMode::ClampToEdge
    } else if s == "mirror"@ {
        WrapMode::MirrorRepeat
    } else if s == "border"@ {
        WrapMode::ClampToBorder
    } else {
        WrapMode::Repeat
    }
}

/// The filter mode that a listing names: linear for mipmapped inputs.
pub open spec fn filter_mode_of(s: Seq<char>) -> FilterMode {
    if s == "mipmap"@ {
        FilterMode::Linear
    } else {
        FilterMode::Nearest
    }
}

/// Whether `s` begins with `prefix`.
pub open spec fn starts_with(s: Seq<char>, prefix: Seq<char>) -> bool {
    prefix.len() <= s.len() && s.subrange(0, prefix.len() as int) == prefix
}

/// Whether `k` is the last position at which `pat` occurs in `s`.
pub open spec fn is_last_occurrence(pat: Seq<char>, s: Seq<char>, k: int) -> bool {
    occurs_at(pat, s, k) && forall|j: int| k < j ==> !#[trigger] occurs_at(pat, s, j)
}

/// Whether a shader argument is a link to a shader page.
pub open spec fn is_shader_link(s: Seq<char>) -> bool {
    starts_with(s, "https://www.shadertoy.com/view/"@) || starts_with(
        s,
        "http://www.shadertoy.com/view/"@,
    ) || starts_with(s, "www.shadertoy.com/view/"@)
}

/// A name with each space replaced by an underscore.
pub open spec fn underscored(s: Seq<char>) -> Seq<char> {
    s.map_values(|c: char| if c == ' ' { '_' } else { c })
}

/// The result of `str::to_lowercase` on a string of these characters.
pub uninterp spec fn lower_of(s: Seq<char>) -> Seq<char>;

/// Relies on `str::to_lowercase`: its result depends on the characters alone.
#[verifier::external_body]
fn lowercase(s: &str) -> (r: String)
    ensures
        r@ == lower_of(s@),
{
    s.to_lowercase()
}

/// Whether two strings hold the same characters.
pub fn str_equal(a: &str, b: &str) -> (r: bool)
    ensures
        r == (a@ == b@),
{
    let n = a.unicode_len();
    if n != b.unicode_len() {
        return false;
    }
    let mut i: usize = 0;
    while i < n
        invariant
            n == a@.len(),
            n == b@.len(),
            i <= n,
            forall|j: int| 0 <= j < i ==> a@[j] == b@[j],
        decreases n - i,
    {
        if a.get_char(i) != b.get_char(i) {
            return false;
        }
        i = i + 1;
    }
    assert(a@ =~= b@);
    true
}

/// Whether `s` begins with `prefix`.
pub fn str_starts_with(s: &str, prefix: &str) -> (r: bool)
    ensures
        r == starts_with(s@, prefix@),
{
    let n = prefix.unicode_len();
    if n > s.unicode_len() {
        return false;
    }
    let head = s.substring_char(0, n);
    str_equal(head, prefix)
}

/// The last position at which `pat` occurs in `s`, if any.
pub fn last_index_of(s: &str, pat: &str) -> (r: Option<usize>)
    ensures
        match r {
            Some(k) => is_last_occurrence(pat@, s@, k as int),
            None => forall|j: int| !#[trigger] occurs_at(pat@, s@, j),
        },
{
    let h = s.unicode_len();
    let n = pat.unicode_len();
    if n > h {
        assert forall|j: int| !#[trigger] occurs_at(pat@, s@, j) by {}
        return None;
    }
    if n == 0 {
        assert(s@.subrange(h as int, h as int) =~= pat@);
        assert(occurs_at(pat@, s@, h as int));
        return Some(h);
    }
    let mut k: usize = h - n + 1;
    while k > 0
        invariant
            n <= h,
            h == s@.len(),
            n == pat@.len(),
            k <= h - n + 1,
            forall|j: int| k <= j ==> !#[trigger] occurs_at(pat@, s@, j),
        decreases k,
    {
        let i = k - 1;
        let piece = s.substring_char(i, i + n);
        if str_equal(piece, pat) {
            assert(occurs_at(pat@, s@, i as int));
            return Some(i);
        }
        k = i;
    }
    None
}

/// The shader id in a command-line argument: what follows the last `view/`
/// of a link to a shader page, or the argument itself.
pub fn shader_id_from_arg(arg: &str) -> (r: String)
    ensures
        !is_shader_link(arg@) ==> r@ == arg@,
        is_shader_link(arg@) ==> exists|k: int|
            is_last_occurrence("view/"@, arg@, k) && r@ == arg@.subrange(k + 5, arg@.len() as int),
{
    let link = str_starts_with(arg, "https://www.shadertoy.com/view/") || str_starts_with(
        arg,
        "http://www.shadertoy.com/view/",
    ) || str_starts_with(arg, "www.shadertoy.com/view/");
    if !link {
        return String::from_str(arg);
    }
    proof {
        lemma_link_holds_view(arg@);
    }
    match last_index_of(arg, "view/") {
        Some(k) => {
            proof {
                reveal_strlit("view/");
            }
            let n = arg.unicode_len();
            String::from_str(arg.substring_char(k + 5, n))
        },
        None => String::from_str(arg),
    }
}

/// A link to a shader page holds `view/`.
proof fn lemma_link_holds_view(s: Seq<char>)
    requires
        is_shader_link(s),
    ensures
        exists|j: int| occurs_at("view/"@, s, j),
{
    reveal_strlit("view/");
    reveal_strlit("https://www.shadertoy.com/view/");
    reveal_strlit("http://www.shadertoy.com/view/");
    reveal_strlit("www.shadertoy.com/view/");
    if starts_with(s, "https://www.shadertoy.com/view/"@) {
        let p = "https://www.shadertoy.com/view/"@;
        assert(p.subrange(26, 31) =~= "view/"@);
        assert(s.subrange(26, 31) =~= p.subrange(26, 31));
        assert(occurs_at("view/"@, s, 26));
    } else if starts_with(s, "http://www.shadertoy.com/view/"@) {
        let p = "http://www.shadertoy.com/view/"@;
        assert(p.subrange(25, 30) =~= "view/"@);
        assert(s.subrange(25, 30) =~= p.subrange(25, 30));
        assert(occurs_at("view/"@, s, 25));
    } else {
        let p = "www.shadertoy.com/view/"@;
        assert(p.subrange(18, 23) =~= "view/"@);
        assert(s.subrange(18, 23) =~= p.subrange(18, 23));
        assert(occurs_at("view/"@, s, 18));
    }
}

/// A name with each space replaced by an underscore.
pub fn underscore_spaces(s: &str) -> (r: String)
    ensures
        r@ == underscored(s@),
{
    let n = s.unicode_len();
    let mut r = String::from_str("");
    let mut i: usize = 0;
    proof {
        reveal_strlit("");
        reveal_strlit("_");
    }
    while i < n
        invariant
            n == s@.len(),
            i <= n,
            r@ == underscored(s@.subrange(0, i as int)),
        decreases n - i,
    {
        let ghost prev = r@;
        let c = s.get_char(i);
        if c == ' ' {
            r.append("_");
        } else {
            r.append(s.substring_char(i, i + 1));
        }
        proof {
            reveal_strlit("_");
            let u = underscored(s@.subrange(0, i + 1));
            assert(u.len() == i + 1);
            assert forall|j: int| 0 <= j < i implies u[j] == prev[j] by {
                assert(s@.subrange(0, i + 1)[j] == s@.subrange(0, i as int)[j]);
            }
            assert(u[i as int] == (if c == ' ' {
                '_'
            } else {
                c
            }));
            assert(r@ =~= u);
        }
        i = i + 1;
    }
    assert(s@.subrange(0, n as int) =~= s@);
    r
}

/// The directory name of a shader: its name, spaces as underscores, in
/// lower case.
pub fn shader_dir_name(name: &str) -> (r: String)
    ensures
        r@ == lower_of(underscored(name@)),
{
    let u = underscore_spaces(name);
    lowercase(u.as_str())
}

/// The form value that asks the shader service for shader `id`.
pub fn shader_query(id: &str) -> (r: String)
    ensures
        r@ == "{\"shaders\": [\""@ + id@ + "\"]}"@,
{
    let mut r = String::from_str("{\"shaders\": [\"");
    r.append(id);
    r.append("\"]}");
    r
}

/// The body of the service's answer, or an error when it lists no shader.
pub fn check_shader_response(body: String) -> (r: Result<String, String>)
    ensures
        body@ == "[]"@ ==> r is Err && r->Err_0@ == "empty response?"@,
        body@ != "[]"@ ==> r is Ok && r->Ok_0@ == body@,
{
    if str_equal(body.as_str(), "[]") {
        Err(String::from_str("empty response?"))
    } else {
        Ok(body)
    }
}

/// The wrap mode that a listing names; `Repeat` for a name it does not know.
pub fn addr_mode(s: &str) -> (r: WrapMode)
    ensures
        r == wrap_mode_of(s@),
{
    if str_equal(s, "repeat") {
        WrapMode::Repeat
    } else if str_equal(s, "clamp") {
        WrapMode::ClampToEdge
    } else if str_equal(s, "mirror") {
        WrapMode::MirrorRepeat
    } else if str_equal(s, "border") {
        WrapMode::ClampToBorder
    } else {
        WrapMode::Repeat
    }
}

/// The filter mode that a listing names: linear for mipmapped inputs.
pub fn filter_mode(s: &str) -> (r: FilterMode)
    ensures
        r == filter_mode_of(s@),
{
    if str_equal(s, "mipmap") {
        FilterMode::Linear
    } else {
        FilterMode::Nearest
    }
}

/// Where the shader and its four channel textures come from, and how the
/// textures are sampled.
pub struct ArgValues {
    /// Path of the shader; `None` for the default one.
    pub shaderpath: Option<String>,
    /// Path of each channel's texture; `None` for the default one.
    pub texture0path: Option<String>,
    pub texture1path: Option<String>,
    pub texture2path: Option<String>,
    pub texture3path: Option<String>,
    pub wrap0: WrapMode,
    pub wrap1: WrapMode,
    pub wrap2: WrapMode,
    pub wrap3: WrapMode,
    pub filter0: FilterMode,
    pub filter1: FilterMode,
    pub filter2: FilterMode,
    pub filter3: FilterMode,
    /// Largest anisotropy for anisotropic filtering.
    pub anisotropic_max: u8,
    /// The name of a bundled example to run, if any.
    pub examplename: Option<String>,
    /// The shader to fetch from the service, if any.
    pub getid: Option<String>,
}

impl ArgValues {
    /// Values with every path unset, textures clamped to their edges and
    /// filtered by nearest texel.
    pub open spec fn initial() -> ArgValues {
        ArgValues {
            shaderpath: None,
            texture0path: None,
            texture1path: None,
            texture2path: None,
            texture3path: None,
            wrap0: WrapMode::ClampToEdge,
            wrap1: WrapMode::ClampToEdge,
            wrap2: WrapMode::ClampToEdge,
            wrap3: WrapMode::ClampToEdge,
            filter0: FilterMode::Nearest,
            filter1: FilterMode::Nearest,
            filter2: FilterMode::Nearest,
            filter3: FilterMode::Nearest,
            anisotropic_max: 0,
            examplename: None,
            getid: None,
        }
    }

    /// The values after input channel `channel` was set; channels past the
    /// fourth are ignored.
    pub open spec fn with_channel(self, channel: u32, path: String, wrap: WrapMode, filter: FilterMode) -> ArgValues {
        if channel == 0 {
            ArgValues { texture0path: Some(path), wrap0: wrap, filter0: filter, ..self }
        } else if channel == 1 {
            ArgValues { texture1path: Some(path), wrap1: wrap, filter1: filter, ..self }
        } else if channel == 2 {
            ArgValues { texture2path: Some(path), wrap2: wrap, filter2: filter, ..self }
        } else if channel == 3 {
            ArgValues { texture3path: Some(path), wrap3: wrap, filter3: filter, ..self }
        } else {
            self
        }
    }

    /// Initial values, fetching `getid` if given.
    pub fn new(getid: Option<String>) -> (r: ArgValues)
        ensures
            r == (ArgValues { getid, ..ArgValues::initial() }),
    {
        ArgValues {
            shaderpath: None,
            texture0path: None,
            texture1path: None,
            texture2path: None,
            texture3path: None,
            wrap0: WrapMode::ClampToEdge,
            wrap1: WrapMode::ClampToEdge,
            wrap2: WrapMode::ClampToEdge,
            wrap3: WrapMode::ClampToEdge,
            filter0: FilterMode::Nearest,
            filter1: FilterMode::Nearest,
            filter2: FilterMode::Nearest,
            filter3: FilterMode::Nearest,
            anisotropic_max: 0,
            examplename: None,
            getid,
        }
    }

    /// Records a listed input: the texture file at `path` feeds channel
    /// `channel`, sampled by the wrap and filter modes that the listing
    /// names. Channels past the fourth are ignored.
    pub fn set_channel_input(&mut self, channel: u32, path: String, wrap: &str, filter: &str)
        ensures
            *final(self) == old(self).with_channel(
                channel,
                path,
                wrap_mode_of(wrap@),
                filter_mode_of(filter@),
            ),
    {
        let w = addr_mode(wrap);
        let f = filter_mode(filter);
        if channel == 0 {
            self.texture0path = Some(path);
            self.wrap0 = w;
            self.filter0 = f;
        } else if channel == 1 {
            self.texture1path = Some(path);
            self.wrap1 = w;
            self.filter1 = f;
        } else if channel == 2 {
            self.texture2path = Some(path);
            self.wrap2 = w;
            self.filter2 = f;
        } else if channel == 3 {
            self.texture3path = Some(path);
            self.wrap3 = w;
            self.filter3 = f;
        }
    }
}

} // verus!
