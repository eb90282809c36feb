//! Rules for spawning scene objects: model paths, the proxy fallback, the
//! animation speed class, and the unlit switch.
use crate::text::{
    ascii_lower_chars, ascii_lower_seq, chars_between, chars_equal, contains_char, contains_chars,
    contains_seq, push_str, str_chars, string_from_chars, trim, trim_chars,
};
use vstd::prelude::*;

verus! {

/// Whether `s` ends with `suffix`.
pub open spec fn ends_with_seq(s: Seq<char>, suffix: Seq<char>) -> bool {
    suffix.len() <= s.len() && s.subrange(s.len() - suffix.len(), s.len() as int) == suffix
}

fn ends_with_chars(v: &Vec<char>, suffix: &[char]) -> (r: bool)
    ensures
        r == ends_with_seq(v@, suffix@),
{
    let n = v.len();
    let m = suffix.len();
    if m > n {
        return false;
    }
    let tail = chars_between(v, n - m, n);
    chars_equal(&tail, suffix)
}

/// A model path as a scene path: a `.glb` file without a `#` label gets
/// the label of its first scene, `#Scene0`; other paths stay as they are.
pub open spec fn spec_normalize_scene_path(model_path: Seq<char>) -> Seq<char> {
    if model_path.contains('#') {
        model_path
    } else if ends_with_seq(model_path, ".glb"@) {
        model_path + "#Scene0"@
    } else {
        model_path
    }
}

/// Computes the scene path of a model; see [`spec_normalize_scene_path`].
pub fn normalize_scene_path(model_path: &str) -> (r: String)
    ensures
        r@ == spec_normalize_scene_path(model_path@),
{
    let chars = str_chars(model_path);
    let glb: [char; 4] = ['.', 'g', 'l', 'b'];
    proof {
        reveal_strlit(".glb");
        assert(glb@ =~= ".glb"@);
    }
    let mut r = String::from_str(model_path);
    if !contains_char(&chars, '#') && ends_with_chars(&chars, &glb) {
        push_str(&mut r, "#Scene0");
    }
    r
}

/// The part of `s` before its first `c`, or all of it.
pub open spec fn before_first(s: Seq<char>, c: char) -> Seq<char>
    decreases s.len(),
{
    if s.len() == 0 {
        s
    } else if s[0] == c {
        Seq::empty()
    } else {
        seq![s[0]] + before_first(s.drop_first(), c)
    }
}

fn prefix_before(v: &Vec<char>, c: char) -> (r: Vec<char>)
    ensures
        r@ == before_first(v@, c),
{
    let n = v.len();
    let mut i: usize = 0;
    while i < n && v[i] != c
        invariant
            i <= n,
            n == v@.len(),
            forall|j: int| 0 <= j < i ==> v@[j] != c,
        decreases n - i,
    {
        i = i + 1;
    }
    proof {
        lemma_before_first_at(v@, c, i as int);
    }
    chars_between(v, 0, i)
}

proof fn lemma_before_first_at(s: Seq<char>, c: char, i: int)
    requires
        0 <= i <= s.len(),
        forall|j: int| 0 <= j < i ==> s[j] != c,
        i == s.len() || s[i] == c,
    ensures
        before_first(s, c) == s.subrange(0, i),
    decreases s.len(),
{
    if s.len() > 0 {
        if i == 0 {
            assert(s.subrange(0, 0) =~= Seq::<char>::empty());
        } else {
            lemma_before_first_at(s.drop_first(), c, i - 1);
            assert(seq![s[0]] + s.drop_first().subrange(0, i - 1) =~= s.subrange(0, i));
        }
    } else {
        assert(s.subrange(0, 0) =~= s);
    }
}

/// The GLB file of a scene path: the part before any `#` label, trimmed,
/// where it ends in `.glb` ignoring ASCII case.
pub open spec fn spec_glb_asset_path(scene_path: Seq<char>) -> Option<Seq<char>> {
    let base = trim(before_first(scene_path, '#'));
    if ends_with_seq(ascii_lower_seq(base), ".glb"@) {
        Some(base)
    } else {
        None
    }
}

/// The GLB file behind a scene path, if any; see [`spec_glb_asset_path`].
pub fn glb_asset_path_from_scene_path(scene_path: &str) -> (r: Option<String>)
    ensures
        match r {
            Some(path) => spec_glb_asset_path(scene_path@) == Some(path@),
            None => spec_glb_asset_path(scene_path@) is None,
        },
{
    let base = trim_chars(&prefix_before(&str_chars(scene_path), '#'));
    let lowered = ascii_lower_chars(&base);
    let glb: [char; 4] = ['.', 'g', 'l', 'b'];
    proof {
        reveal_strlit(".glb");
        assert(glb@ =~= ".glb"@);
    }
    if ends_with_chars(&lowered, &glb) {
        Some(string_from_chars(&base))
    } else {
        None
    }
}

/// Whether a model is a character (a monster or an NPC), whose animations
/// play at the character speed: its path contains `/monster` or `/npc`,
/// ignoring ASCII case.
pub open spec fn spec_is_character_model(model_path: Seq<char>) -> bool {
    let lowered = ascii_lower_seq(model_path);
    contains_seq(lowered, "/monster"@) || contains_seq(lowered, "/npc"@)
}

/// Whether a model is a character; see [`spec_is_character_model`].
pub fn is_character_model(model_path: &str) -> (r: bool)
    ensures
        r == spec_is_character_model(model_path@),
{
    let lowered = ascii_lower_chars(&str_chars(model_path));
    let monster: [char; 8] = ['/', 'm', 'o', 'n', 's', 't', 'e', 'r'];
    let npc: [char; 4] = ['/', 'n', 'p', 'c'];
    proof {
        reveal_strlit("/monster");
        reveal_strlit("/npc");
        assert(monster@ =~= "/monster"@);
        assert(npc@ =~= "/npc"@);
    }
    contains_chars(&lowered, &monster) || contains_chars(&lowered, &npc)
}

/// How a scene object is drawn.
#[derive(Debug, Clone, Copy, PartialEq, Eq, Structural)]
pub enum SceneObjectModelChoice {
    /// A placeholder box.
    Proxy,
    /// The object's own model scene.
    Scene,
}

/// The model choice: an object without a model, or one the conversion
/// marked as not renderable, gets the proxy; one marked renderable gets its
/// scene; otherwise the asset check (`asset_valid`) decides.
pub open spec fn spec_scene_object_model(
    model_path: Seq<char>,
    model_renderable: Option<bool>,
    asset_valid: bool,
) -> SceneObjectModelChoice {
    if model_path.len() == 0 {
        SceneObjectModelChoice::Proxy
    } else {
        match model_renderable {
            Some(false) => SceneObjectModelChoice::Proxy,
            Some(true) => SceneObjectModelChoice::Scene,
            None => if asset_valid {
                SceneObjectModelChoice::Scene
            } else {
                SceneObjectModelChoice::Proxy
            },
        }
    }
}

/// Whether the asset check is needed at all: only for an object with a
/// model that the conversion did not mark either way.
pub open spec fn spec_needs_asset_check(model_path: Seq<char>, model_renderable: Option<bool>) -> bool {
    model_path.len() > 0 && model_renderable is None
}

/// Whether the model's asset must be checked; see [`spec_needs_asset_check`].
pub fn needs_asset_check(model_path: &str, model_renderable: Option<bool>) -> (r: bool)
    ensures
        r == spec_needs_asset_check(model_path@, model_renderable),
{
    model_path.unicode_len() > 0 && model_renderable.is_none()
}

/// How the object is drawn; see [`spec_scene_object_model`].
pub fn scene_object_model(model_path: &str, model_renderable: Option<bool>, asset_valid: bool) -> (r:
    SceneObjectModelChoice)
    ensures
        r == spec_scene_object_model(model_path@, model_renderable, asset_valid),
{
    if model_path.unicode_len() == 0 {
        return SceneObjectModelChoice::Proxy;
    }
    match model_renderable {
        Some(false) => SceneObjectModelChoice::Proxy,
        Some(true) => SceneObjectModelChoice::Scene,
        None => if asset_valid {
            SceneObjectModelChoice::Scene
        } else {
            SceneObjectModelChoice::Proxy
        },
    }
}

/// Whether scene objects are drawn unlit: yes, unless the setting says
/// `false`, `0`, `off` or `no` (trimmed, ignoring ASCII case); yes when
/// there is no setting.
pub open spec fn spec_scene_objects_unlit(raw: Option<Seq<char>>) -> bool {
    match raw {
        Some(text) => {
            let v = ascii_lower_seq(trim(text));
            !(v == "false"@ || v == "0"@ || v == "off"@ || v == "no"@)
        },
        None => true,
    }
}

/// Whether scene objects are unlit; see [`spec_scene_objects_unlit`].
pub fn scene_objects_unlit(raw: Option<&str>) -> (r: bool)
    ensures
        r == spec_scene_objects_unlit(
            match raw {
                Some(text) => Some(text@),
                None => None,
            },
        ),
{
    match raw {
        Some(text) => {
            let v = ascii_lower_chars(&trim_chars(&str_chars(text)));
            let f: [char; 5] = ['f', 'a', 'l', 's', 'e'];
            let zero: [char; 1] = ['0'];
            let off: [char; 3] = ['o', 'f', 'f'];
            let no: [char; 2] = ['n', 'o'];
            proof {
                reveal_strlit("false");
                reveal_strlit("0");
                reveal_strlit("off");
                reveal_strlit("no");
                assert(f@ =~= "false"@);
                assert(zero@ =~= "0"@);
                assert(off@ =~= "off"@);
                assert(no@ =~= "no"@);
            }
            !(chars_equal(&v, &f) || chars_equal(&v, &zero) || chars_equal(&v, &off)
                || chars_equal(&v, &no))
        },
        None => true,
    }
}

} // verus!
