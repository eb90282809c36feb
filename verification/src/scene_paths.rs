//! Names and asset paths of the per-world scene data.

use crate::text::{
    ascii_lower, ascii_lower_chars, ascii_lower_seq, push_char, to_ascii_lower, trim_start_char,
    trim_start_matches_char, chars_between, contains_char, decimal, parse_u32, parse_u32_spec, push_decimal, push_chars,
    push_str, replace_char, replace_chars, starts_with_chars, str_chars, string_from_chars, trim,
    trim_chars,
};
use vstd::prelude::*;

verus! {

pub const TERRAIN_CONFIG_FILE: &'static str = "terrain_config.json";

pub const TERRAIN_HEIGHT_FILE: &'static str = "terrain_height.json";

pub const TERRAIN_MAP_FILE: &'static str = "terrain_map.json";

pub const TERRAIN_TEXTURE_SLOTS_FILE: &'static str = "terrain_texture_slots.json";

pub const SCENE_OBJECTS_FILE: &'static str = "scene_objects.json";

pub const CAMERA_TOUR_FILE: &'static str = "camera_tour.json";

pub const MAP_VFX_FILE: &'static str = "map_vfx.json";

/// Environment variable that overrides the scene objects file.
pub const SCENE_OBJECTS_FILE_OVERRIDE_ENV: &'static str = "MU_SCENE_OBJECTS_FILE";

/// `World`, the prefix of data folder names as the game writes them.
pub open spec fn upper_world_prefix() -> Seq<char> {
    seq!['W', 'o', 'r', 'l', 'd']
}

/// `world`, the prefix of normalized world names.
pub open spec fn lower_world_prefix() -> Seq<char> {
    seq!['w', 'o', 'r', 'l', 'd']
}

/// Whether `s` starts with `prefix`.
pub open spec fn has_prefix(s: Seq<char>, prefix: Seq<char>) -> bool {
    prefix.len() <= s.len() && s.subrange(0, prefix.len() as int) == prefix
}

/// The normalized world name: white space trimmed; empty names mean
/// `World1`; `World<n>` or a bare number `<n>` (as `str::parse::<u32>` reads
/// it) become `world<n>`; anything else is kept as trimmed.
pub open spec fn spec_normalize_world_name(raw: Seq<char>) -> Seq<char> {
    let t = trim(raw);
    if t.len() == 0 {
        seq!['W', 'o', 'r', 'l', 'd', '1']
    } else if has_prefix(t, upper_world_prefix()) {
        match parse_u32_spec(t.subrange(5, t.len() as int)) {
            Some(n) => lower_world_prefix() + decimal(n as nat),
            None => t,
        }
    } else {
        match parse_u32_spec(t) {
            Some(n) => lower_world_prefix() + decimal(n as nat),
            None => t,
        }
    }
}

fn world_name_with_number(n: u32) -> (r: String)
    ensures
        r@ == lower_world_prefix() + decimal(n as nat),
{
    let mut name = String::new();
    let prefix = ['w', 'o', 'r', 'l', 'd'];
    let mut i: usize = 0;
    while i < 5
        invariant
            i <= 5,
            prefix@ == lower_world_prefix(),
            name@ == prefix@.subrange(0, i as int),
        decreases 5 - i,
    {
        crate::text::push_char(&mut name, prefix[i]);
        i = i + 1;
        proof {
            assert(name@ =~= prefix@.subrange(0, i as int));
        }
    }
    assert(prefix@.subrange(0, 5) =~= lower_world_prefix());
    push_decimal(&mut name, n);
    name
}

/// Normalizes a world name; see [`spec_normalize_world_name`].
pub fn normalize_world_name(raw_world_name: &str) -> (r: String)
    ensures
        r@ == spec_normalize_world_name(raw_world_name@),
{
    let chars = str_chars(raw_world_name);
    let trimmed = trim_chars(&chars);
    if trimmed.len() == 0 {
        let mut r = String::new();
        let letters = ['W', 'o', 'r', 'l', 'd', '1'];
        let mut i: usize = 0;
        while i < 6
            invariant
                i <= 6,
                letters@ == seq!['W', 'o', 'r', 'l', 'd', '1'],
                r@ == letters@.subrange(0, i as int),
            decreases 6 - i,
        {
            crate::text::push_char(&mut r, letters[i]);
            i = i + 1;
            proof {
                assert(r@ =~= letters@.subrange(0, i as int));
            }
        }
        assert(letters@.subrange(0, 6) =~= letters@);
        return r;
    }
    let upper = ['W', 'o', 'r', 'l', 'd'];
    assert(upper@ =~= upper_world_prefix());
    if starts_with_chars(&trimmed, &upper) {
        let rest = chars_between(&trimmed, 5, trimmed.len());
        match parse_u32(&rest) {
            Some(n) => world_name_with_number(n),
            None => string_from_chars(&trimmed),
        }
    } else {
        match parse_u32(&trimmed) {
            Some(n) => world_name_with_number(n),
            None => string_from_chars(&trimmed),
        }
    }
}

/// `data/<world>/<file>`.
pub open spec fn spec_world_asset_path(world_name: Seq<char>, file_name: Seq<char>) -> Seq<char> {
    "data/"@ + world_name + "/"@ + file_name
}

/// Returns the asset path `data/<world>/<file>`.
pub fn world_asset_path(world_name: &str, file_name: &str) -> (r: String)
    ensures
        r@ == spec_world_asset_path(world_name@, file_name@),
{
    let mut path = String::from_str("data/");
    push_str(&mut path, world_name);
    push_str(&mut path, "/");
    push_str(&mut path, file_name);
    path
}

/// The number of a normalized world name `world<n>`, if it has one.
pub open spec fn spec_world_number(world_name: Seq<char>) -> Option<u32> {
    if has_prefix(world_name, lower_world_prefix()) {
        parse_u32_spec(world_name.subrange(5, world_name.len() as int))
    } else {
        None
    }
}

/// Returns the number of a normalized world name `world<n>`, if it has one.
pub fn world_number(world_name: &str) -> (r: Option<u32>)
    ensures
        r == spec_world_number(world_name@),
{
    let chars = str_chars(world_name);
    let lower = ['w', 'o', 'r', 'l', 'd'];
    assert(lower@ =~= lower_world_prefix());
    if starts_with_chars(&chars, &lower) {
        let rest = chars_between(&chars, 5, chars.len());
        parse_u32(&rest)
    } else {
        None
    }
}

/// `enc_terrain<n>.map.json`, the legacy terrain map file of world `n`.
pub open spec fn spec_legacy_terrain_map_file(number: u32) -> Seq<char> {
    "enc_terrain"@ + decimal(number as nat) + ".map.json"@
}

/// Returns the legacy terrain map file name of world `number`.
pub fn legacy_terrain_map_file(number: u32) -> (r: String)
    ensures
        r@ == spec_legacy_terrain_map_file(number),
{
    let mut name = String::from_str("enc_terrain");
    push_decimal(&mut name, number);
    push_str(&mut name, ".map.json");
    name
}

/// The scene objects file of a world: the override when one is given and is
/// not blank (trimmed; a path, recognised by a `/` or `\`, is used as is with
/// `\` turned into `/`, a bare name is looked up in the world's folder), the
/// world's `scene_objects.json` otherwise.
pub open spec fn spec_scene_objects_asset_path(
    world_name: Seq<char>,
    override_value: Option<Seq<char>>,
) -> Seq<char> {
    match override_value {
        None => spec_world_asset_path(world_name, SCENE_OBJECTS_FILE@),
        Some(raw) => {
            let o = trim(raw);
            if o.len() == 0 {
                spec_world_asset_path(world_name, SCENE_OBJECTS_FILE@)
            } else if o.contains('/') || o.contains('\\') {
                replace_char(o, '\\', '/')
            } else {
                spec_world_asset_path(world_name, o)
            }
        },
    }
}

/// Returns the scene objects file of a world given the override setting, if
/// any; see [`spec_scene_objects_asset_path`].
pub fn scene_objects_asset_path(world_name: &str, override_value: Option<&str>) -> (r: String)
    ensures
        r@ == spec_scene_objects_asset_path(
            world_name@,
            match override_value {
                Some(v) => Some(v@),
                None => None,
            },
        ),
{
    match override_value {
        None => world_asset_path(world_name, SCENE_OBJECTS_FILE),
        Some(raw) => {
            let chars = str_chars(raw);
            let o = trim_chars(&chars);
            if o.len() == 0 {
                world_asset_path(world_name, SCENE_OBJECTS_FILE)
            } else if contains_char(&o, '/') || contains_char(&o, '\\') {
                string_from_chars(&replace_chars(&o, '\\', '/'))
            } else {
                let mut path = String::from_str("data/");
                push_str(&mut path, world_name);
                push_str(&mut path, "/");
                push_chars(&mut path, &o);
                path
            }
        },
    }
}

/// The asset paths requested for a world's scene.
#[derive(Clone, Debug, PartialEq, Eq)]
pub struct SceneAssetPaths {
    pub world_name: String,
    pub terrain_config: String,
    pub heightmap: String,
    pub terrain_map: String,
    pub legacy_terrain_map: Option<String>,
    pub terrain_texture_slots: String,
    pub scene_objects: String,
    pub camera_tour: String,
    pub map_vfx: Option<String>,
}

/// Plans the asset paths of a normalized world name: the standard files of
/// its folder, the legacy `enc_terrain<n>.map.json` when the name has a
/// number, the scene objects file with the override applied, and no map VFX
/// profile (map VFX loading is switched off).
pub fn scene_asset_paths(world_name: &str, scene_objects_override: Option<&str>) -> (r:
    SceneAssetPaths)
    ensures
        r.world_name@ == world_name@,
        r.terrain_config@ == spec_world_asset_path(world_name@, TERRAIN_CONFIG_FILE@),
        r.heightmap@ == spec_world_asset_path(world_name@, TERRAIN_HEIGHT_FILE@),
        r.terrain_map@ == spec_world_asset_path(world_name@, TERRAIN_MAP_FILE@),
        match (r.legacy_terrain_map, spec_world_number(world_name@)) {
            (Some(path), Some(n)) => path@ == spec_world_asset_path(
                world_name@,
                spec_legacy_terrain_map_file(n),
            ),
            (None, None) => true,
            _ => false,
        },
        r.terrain_texture_slots@ == spec_world_asset_path(
            world_name@,
            TERRAIN_TEXTURE_SLOTS_FILE@,
        ),
        r.scene_objects@ == spec_scene_objects_asset_path(
            world_name@,
            match scene_objects_override {
                Some(v) => Some(v@),
                None => None,
            },
        ),
        r.camera_tour@ == spec_world_asset_path(world_name@, CAMERA_TOUR_FILE@),
        r.map_vfx is None,
{
    let legacy_terrain_map = match world_number(world_name) {
        Some(number) => {
            let file = legacy_terrain_map_file(number);
            Some(world_asset_path(world_name, file.as_str()))
        },
        None => None,
    };
    SceneAssetPaths {
        world_name: String::from_str(world_name),
        terrain_config: world_asset_path(world_name, TERRAIN_CONFIG_FILE),
        heightmap: world_asset_path(world_name, TERRAIN_HEIGHT_FILE),
        terrain_map: world_asset_path(world_name, TERRAIN_MAP_FILE),
        legacy_terrain_map,
        terrain_texture_slots: world_asset_path(world_name, TERRAIN_TEXTURE_SLOTS_FILE),
        scene_objects: scene_objects_asset_path(world_name, scene_objects_override),
        camera_tour: world_asset_path(world_name, CAMERA_TOUR_FILE),
        map_vfx: None,
    }
}

/// The snake-case form of a name: each ASCII upper-case letter is lowered
/// and, unless it is the first character, preceded by `_`; every other
/// character is kept.
pub open spec fn spec_snake_case(s: Seq<char>) -> Seq<char>
    decreases s.len(),
{
    if s.len() == 0 {
        Seq::empty()
    } else {
        let c = s.last();
        let piece = if 'A' <= c && c <= 'Z' {
            if s.len() > 1 {
                seq!['_', ascii_lower(c)]
            } else {
                seq![ascii_lower(c)]
            }
        } else {
            seq![c]
        };
        spec_snake_case(s.drop_last()) + piece
    }
}

/// Returns the snake-case form of a name, e.g. `tile_grass01` for
/// `TileGrass01`.
pub fn to_snake_case(value: &str) -> (r: String)
    ensures
        r@ == spec_snake_case(value@),
{
    let chars = str_chars(value);
    let mut result = String::new();
    let mut index: usize = 0;
    while index < chars.len()
        invariant
            index <= chars@.len(),
            result@ == spec_snake_case(chars@.subrange(0, index as int)),
        decreases chars@.len() - index,
    {
        let ch = chars[index];
        if 'A' <= ch && ch <= 'Z' {
            if index != 0 {
                push_char(&mut result, '_');
            }
            push_char(&mut result, to_ascii_lower(ch));
        } else {
            push_char(&mut result, ch);
        }
        index = index + 1;
        proof {
            let prefix = chars@.subrange(0, index as int);
            assert(prefix.drop_last() =~= chars@.subrange(0, index - 1));
            assert(result@ =~= spec_snake_case(prefix));
        }
    }
    assert(chars@.subrange(0, chars@.len() as int) =~= chars@);
    result
}

/// A raw asset path made relative to the asset root: trimmed, `\` turned
/// into `/`, leading `/` removed.
pub open spec fn spec_normalize_asset_path(raw: Seq<char>) -> Seq<char> {
    trim_start_char(replace_char(trim(raw), '\\', '/'), '/')
}

/// Normalizes a raw asset path; see [`spec_normalize_asset_path`].
pub fn normalize_asset_path(raw_path: &str) -> (r: String)
    ensures
        r@ == spec_normalize_asset_path(raw_path@),
{
    let chars = str_chars(raw_path);
    let trimmed = trim_chars(&chars);
    let slashed = replace_chars(&trimmed, '\\', '/');
    string_from_chars(&trim_start_matches_char(&slashed, '/'))
}

/// `data/<world>/<name>.png`.
pub open spec fn spec_png_path(world_name: Seq<char>, name: Seq<char>) -> Seq<char> {
    "data/"@ + world_name + "/"@ + name + ".png"@
}

fn png_path(world_name: &str, name: &String) -> (r: String)
    ensures
        r@ == spec_png_path(world_name@, name@),
{
    let mut path = String::from_str("data/");
    push_str(&mut path, world_name);
    push_str(&mut path, "/");
    push_str(&mut path, name.as_str());
    push_str(&mut path, ".png");
    path
}

/// The three spellings tried for a texture name: as written, snake case and
/// lower case (the names are ASCII, so lowering ASCII letters is
/// `str::to_lowercase`).
pub open spec fn spec_texture_spellings(world_name: Seq<char>, name: Seq<char>) -> Seq<Seq<char>> {
    seq![
        spec_png_path(world_name, name),
        spec_png_path(world_name, spec_snake_case(name)),
        spec_png_path(world_name, ascii_lower_seq(name)),
    ]
}

fn push_texture_spellings(candidates: &mut Vec<String>, world_name: &str, name: &String)
    ensures
        final(candidates)@.map_values(|s: String| s@) == old(candidates)@.map_values(
            |s: String| s@,
        ) + spec_texture_spellings(world_name@, name@),
{
    let ghost before = candidates@.map_values(|s: String| s@);
    candidates.push(png_path(world_name, name));
    let snake = to_snake_case(name.as_str());
    candidates.push(png_path(world_name, &snake));
    let lower = string_from_chars(&ascii_lower_chars(&str_chars(name.as_str())));
    candidates.push(png_path(world_name, &lower));
    proof {
        assert(candidates@.map_values(|s: String| s@) =~= before + spec_texture_spellings(
            world_name@,
            name@,
        ));
    }
}

/// Two decimal digits of a number below 100, zero-padded.
pub open spec fn two_digits(n: nat) -> Seq<char> {
    seq![crate::text::digit_char(n / 10), crate::text::digit_char(n % 10)]
}

fn push_two_digits(s: &mut String, n: u8)
    requires
        n < 100,
    ensures
        final(s)@ == old(s)@ + two_digits(n as nat),
{
    let ghost before = s@;
    let mut digits = String::new();
    push_decimal(&mut digits, (n / 10) as u32);
    push_decimal(&mut digits, (n % 10) as u32);
    push_str(s, digits.as_str());
    proof {
        assert(decimal((n / 10) as nat) =~= seq![crate::text::digit_char((n / 10) as nat)]);
        assert(decimal((n % 10) as nat) =~= seq![crate::text::digit_char((n % 10) as nat)]);
        assert(s@ =~= before + two_digits(n as nat));
    }
}

/// Built-in texture names of terrain slots: grass, ground, water, wood and
/// rock tiles for slots 0 to 13, the extension tiles `ExtTileNN` and
/// `ext_tileNN` (NN = slot - 13, two digits) for slots 14 to 29, grass again
/// for slots 30 to 32, and nothing for the others.
pub open spec fn spec_slot_texture_names(slot: u8) -> Seq<Seq<char>> {
    if slot == 0 || slot == 30 {
        seq!["TileGrass01"@]
    } else if slot == 1 || slot == 31 {
        seq!["TileGrass02"@]
    } else if slot == 2 {
        seq!["TileGround01"@]
    } else if slot == 3 {
        seq!["TileGround02"@]
    } else if slot == 4 {
        seq!["TileGround03"@]
    } else if slot == 5 {
        seq!["TileWater01"@]
    } else if slot == 6 {
        seq!["TileWood01"@]
    } else if slot == 7 {
        seq!["TileRock01"@]
    } else if slot == 8 {
        seq!["TileRock02"@]
    } else if slot == 9 {
        seq!["TileRock03"@]
    } else if slot == 10 {
        seq!["TileRock04"@]
    } else if slot == 11 {
        seq!["TileRock05"@]
    } else if slot == 12 {
        seq!["TileRock06"@]
    } else if slot == 13 {
        seq!["TileRock07"@]
    } else if 14 <= slot && slot <= 29 {
        seq![
            "ExtTile"@ + two_digits((slot - 13) as nat),
            "ext_tile"@ + two_digits((slot - 13) as nat),
        ]
    } else if slot == 32 {
        seq!["TileGrass03"@]
    } else {
        Seq::empty()
    }
}

fn slot_texture_names(slot: u8) -> (r: Vec<String>)
    ensures
        r@.map_values(|s: String| s@) == spec_slot_texture_names(slot),
{
    let mut names: Vec<String> = Vec::new();
    if slot == 0 || slot == 30 {
        names.push(String::from_str("TileGrass01"));
    } else if slot == 1 || slot == 31 {
        names.push(String::from_str("TileGrass02"));
    } else if slot == 2 {
        names.push(String::from_str("TileGround01"));
    } else if slot == 3 {
        names.push(String::from_str("TileGround02"));
    } else if slot == 4 {
        names.push(String::from_str("TileGround03"));
    } else if slot == 5 {
        names.push(String::from_str("TileWater01"));
    } else if slot == 6 {
        names.push(String::from_str("TileWood01"));
    } else if slot == 7 {
        names.push(String::from_str("TileRock01"));
    } else if slot == 8 {
        names.push(String::from_str("TileRock02"));
    } else if slot == 9 {
        names.push(String::from_str("TileRock03"));
    } else if slot == 10 {
        names.push(String::from_str("TileRock04"));
    } else if slot == 11 {
        names.push(String::from_str("TileRock05"));
    } else if slot == 12 {
        names.push(String::from_str("TileRock06"));
    } else if slot == 13 {
        names.push(String::from_str("TileRock07"));
    } else if 14 <= slot && slot <= 29 {
        let ext_id: u8 = slot - 13;
        let mut upper = String::from_str("ExtTile");
        push_two_digits(&mut upper, ext_id);
        names.push(upper);
        let mut lower = String::from_str("ext_tile");
        push_two_digits(&mut lower, ext_id);
        names.push(lower);
    } else if slot == 32 {
        names.push(String::from_str("TileGrass03"));
    }
    proof {
        assert(names@.map_values(|s: String| s@) =~= spec_slot_texture_names(slot));
    }
    names
}

/// All spellings of a list of texture names, name by name.
pub open spec fn spec_spellings_of(world_name: Seq<char>, names: Seq<Seq<char>>) -> Seq<Seq<char>>
    decreases names.len(),
{
    if names.len() == 0 {
        Seq::empty()
    } else {
        spec_spellings_of(world_name, names.drop_last()) + spec_texture_spellings(
            world_name,
            names.last(),
        )
    }
}

/// Built-in texture paths tried for a terrain slot, in order: each of the
/// slot's texture names in the three spellings.
pub open spec fn spec_default_texture_slot_candidates(world_name: Seq<char>, slot: u8) -> Seq<
    Seq<char>,
> {
    spec_spellings_of(world_name, spec_slot_texture_names(slot))
}

/// Returns the built-in texture paths tried for a terrain slot; see
/// [`spec_default_texture_slot_candidates`].
pub fn default_texture_slot_candidates(world_name: &str, texture_slot: u8) -> (r: Vec<String>)
    ensures
        r@.map_values(|s: String| s@) == spec_default_texture_slot_candidates(
            world_name@,
            texture_slot,
        ),
{
    let names = slot_texture_names(texture_slot);
    let ghost name_views = names@.map_values(|s: String| s@);
    let mut candidates: Vec<String> = Vec::new();
    let mut i: usize = 0;
    while i < names.len()
        invariant
            i <= names@.len(),
            name_views == names@.map_values(|s: String| s@),
            candidates@.map_values(|s: String| s@) == spec_spellings_of(
                world_name@,
                name_views.subrange(0, i as int),
            ),
        decreases names@.len() - i,
    {
        push_texture_spellings(&mut candidates, world_name, &names[i]);
        i = i + 1;
        proof {
            assert(name_views.subrange(0, i as int).drop_last() =~= name_views.subrange(
                0,
                i - 1,
            ));
        }
    }
    assert(name_views.subrange(0, names@.len() as int) =~= name_views);
    candidates
}

proof fn lemma_spellings_of_one(world_name: Seq<char>, name: Seq<char>)
    ensures
        spec_spellings_of(world_name, seq![name]) == spec_texture_spellings(world_name, name),
{
    let names = seq![name];
    assert(names.drop_last() =~= Seq::<Seq<char>>::empty());
    assert(names.last() == name);
    assert(spec_spellings_of(world_name, names.drop_last()) =~= Seq::<Seq<char>>::empty());
    assert(Seq::<Seq<char>>::empty() + spec_texture_spellings(world_name, name) =~= spec_texture_spellings(
        world_name,
        name,
    ));
}

proof fn lemma_spellings_of_two(world_name: Seq<char>, first: Seq<char>, second: Seq<char>)
    ensures
        spec_spellings_of(world_name, seq![first, second]) == spec_texture_spellings(world_name, first)
            + spec_texture_spellings(world_name, second),
{
    assert(seq![first, second].drop_last() =~= seq![first]);
    lemma_spellings_of_one(world_name, first);
}

proof fn lemma_named_slot(
    world_name: Seq<char>,
    slot: u8,
    name: Seq<char>,
    snake: Seq<char>,
    lower: Seq<char>,
)
    requires
        spec_slot_texture_names(slot) == seq![name],
        spec_snake_case(name) == snake,
        ascii_lower_seq(name) == lower,
    ensures
        spec_default_texture_slot_candidates(world_name, slot) == seq![
            spec_png_path(world_name, name),
            spec_png_path(world_name, snake),
            spec_png_path(world_name, lower),
        ],
{
    lemma_spellings_of_one(world_name, name);
}

proof fn lemma_extension_slot(world_name: Seq<char>, slot: u8, upper: Seq<char>, lower: Seq<char>)
    requires
        spec_slot_texture_names(slot) == seq![upper, lower],
    ensures
        spec_default_texture_slot_candidates(world_name, slot).len() == 6,
        spec_default_texture_slot_candidates(world_name, slot)[0] == spec_png_path(world_name, upper),
        spec_default_texture_slot_candidates(world_name, slot)[3] == spec_png_path(world_name, lower),
{
    lemma_spellings_of_two(world_name, upper, lower);
}

proof fn lemma_spellings_tile_grass01()
    ensures
        spec_snake_case("TileGrass01"@) == "tile_grass01"@,
        ascii_lower_seq("TileGrass01"@) == "tilegrass01"@,
{
    reveal_strlit("TileGrass01");
    reveal_strlit("tile_grass01");
    reveal_strlit("tilegrass01");
    assert(spec_snake_case("TileGrass01"@) =~= "tile_grass01"@) by {
        reveal_with_fuel(spec_snake_case, 13);
    }
    assert(ascii_lower_seq("TileGrass01"@) =~= "tilegrass01"@);
}

proof fn lemma_spellings_tile_grass02()
    ensures
        spec_snake_case("TileGrass02"@) == "tile_grass02"@,
        ascii_lower_seq("TileGrass02"@) == "tilegrass02"@,
{
    reveal_strlit("TileGrass02");
    reveal_strlit("tile_grass02");
    reveal_strlit("tilegrass02");
    assert(spec_snake_case("TileGrass02"@) =~= "tile_grass02"@) by {
        reveal_with_fuel(spec_snake_case, 13);
    }
    assert(ascii_lower_seq("TileGrass02"@) =~= "tilegrass02"@);
}

proof fn lemma_spellings_tile_grass03()
    ensures
        spec_snake_case("TileGrass03"@) == "tile_grass03"@,
        ascii_lower_seq("TileGrass03"@) == "tilegrass03"@,
{
    reveal_strlit("TileGrass03");
    reveal_strlit("tile_grass03");
    reveal_strlit("tilegrass03");
    assert(spec_snake_case("TileGrass03"@) =~= "tile_grass03"@) by {
        reveal_with_fuel(spec_snake_case, 13);
    }
    assert(ascii_lower_seq("TileGrass03"@) =~= "tilegrass03"@);
}

proof fn lemma_spellings_tile_ground01()
    ensures
        spec_snake_case("TileGround01"@) == "tile_ground01"@,
        ascii_lower_seq("TileGround01"@) == "tileground01"@,
{
    reveal_strlit("TileGround01");
    reveal_strlit("tile_ground01");
    reveal_strlit("tileground01");
    assert(spec_snake_case("TileGround01"@) =~= "tile_ground01"@) by {
        reveal_with_fuel(spec_snake_case, 13);
    }
    assert(ascii_lower_seq("TileGround01"@) =~= "tileground01"@);
}

proof fn lemma_spellings_tile_ground02()
    ensures
        spec_snake_case("TileGround02"@) == "tile_ground02"@,
        ascii_lower_seq("TileGround02"@) == "tileground02"@,
{
    reveal_strlit("TileGround02");
    reveal_strlit("tile_ground02");
    reveal_strlit("tileground02");
    assert(spec_snake_case("TileGround02"@) =~= "tile_ground02"@) by {
        reveal_with_fuel(spec_snake_case, 13);
    }
    assert(ascii_lower_seq("TileGround02"@) =~= "tileground02"@);
}

proof fn lemma_spellings_tile_ground03()
    ensures
        spec_snake_case("TileGround03"@) == "tile_ground03"@,
        ascii_lower_seq("TileGround03"@) == "tileground03"@,
{
    reveal_strlit("TileGround03");
    reveal_strlit("tile_ground03");
    reveal_strlit("tileground03");
    assert(spec_snake_case("TileGround03"@) =~= "tile_ground03"@) by {
        reveal_with_fuel(spec_snake_case, 13);
    }
    assert(ascii_lower_seq("TileGround03"@) =~= "tileground03"@);
}

proof fn lemma_spellings_tile_water01()
    ensures
        spec_snake_case("TileWater01"@) == "tile_water01"@,
        ascii_lower_seq("TileWater01"@) == "tilewater01"@,
{
    reveal_strlit("TileWater01");
    reveal_strlit("tile_water01");
    reveal_strlit("tilewater01");
    assert(spec_snake_case("TileWater01"@) =~= "tile_water01"@) by {
        reveal_with_fuel(spec_snake_case, 13);
    }
    assert(ascii_lower_seq("TileWater01"@) =~= "tilewater01"@);
}

proof fn lemma_spellings_tile_wood01()
    ensures
        spec_snake_case("TileWood01"@) == "tile_wood01"@,
        ascii_lower_seq("TileWood01"@) == "tilewood01"@,
{
    reveal_strlit("TileWood01");
    reveal_strlit("tile_wood01");
    reveal_strlit("tilewood01");
    assert(spec_snake_case("TileWood01"@) =~= "tile_wood01"@) by {
        reveal_with_fuel(spec_snake_case, 13);
    }
    assert(ascii_lower_seq("TileWood01"@) =~= "tilewood01"@);
}

proof fn lemma_spellings_tile_rock01()
    ensures
        spec_snake_case("TileRock01"@) == "tile_rock01"@,
        ascii_lower_seq("TileRock01"@) == "tilerock01"@,
{
    reveal_strlit("TileRock01");
    reveal_strlit("tile_rock01");
    reveal_strlit("tilerock01");
    assert(spec_snake_case("TileRock01"@) =~= "tile_rock01"@) by {
        reveal_with_fuel(spec_snake_case, 13);
    }
    assert(ascii_lower_seq("TileRock01"@) =~= "tilerock01"@);
}

proof fn lemma_spellings_tile_rock02()
    ensures
        spec_snake_case("TileRock02"@) == "tile_rock02"@,
        ascii_lower_seq("TileRock02"@) == "tilerock02"@,
{
    reveal_strlit("TileRock02");
    reveal_strlit("tile_rock02");
    reveal_strlit("tilerock02");
    assert(spec_snake_case("TileRock02"@) =~= "tile_rock02"@) by {
        reveal_with_fuel(spec_snake_case, 13);
    }
    assert(ascii_lower_seq("TileRock02"@) =~= "tilerock02"@);
}

proof fn lemma_spellings_tile_rock03()
    ensures
        spec_snake_case("TileRock03"@) == "tile_rock03"@,
        ascii_lower_seq("TileRock03"@) == "tilerock03"@,
{
    reveal_strlit("TileRock03");
    reveal_strlit("tile_rock03");
    reveal_strlit("tilerock03");
    assert(spec_snake_case("TileRock03"@) =~= "tile_rock03"@) by {
        reveal_with_fuel(spec_snake_case, 13);
    }
    assert(ascii_lower_seq("TileRock03"@) =~= "tilerock03"@);
}

proof fn lemma_spellings_tile_rock04()
    ensures
        spec_snake_case("TileRock04"@) == "tile_rock04"@,
        ascii_lower_seq("TileRock04"@) == "tilerock04"@,
{
    reveal_strlit("TileRock04");
    reveal_strlit("tile_rock04");
    reveal_strlit("tilerock04");
    assert(spec_snake_case("TileRock04"@) =~= "tile_rock04"@) by {
        reveal_with_fuel(spec_snake_case, 13);
    }
    assert(ascii_lower_seq("TileRock04"@) =~= "tilerock04"@);
}

proof fn lemma_spellings_tile_rock05()
    ensures
        spec_snake_case("TileRock05"@) == "tile_rock05"@,
        ascii_lower_seq("TileRock05"@) == "tilerock05"@,
{
    reveal_strlit("TileRock05");
    reveal_strlit("tile_rock05");
    reveal_strlit("tilerock05");
    assert(spec_snake_case("TileRock05"@) =~= "tile_rock05"@) by {
        reveal_with_fuel(spec_snake_case, 13);
    }
    assert(ascii_lower_seq("TileRock05"@) =~= "tilerock05"@);
}

proof fn lemma_spellings_tile_rock06()
    ensures
        spec_snake_case("TileRock06"@) == "tile_rock06"@,
        ascii_lower_seq("TileRock06"@) == "tilerock06"@,
{
    reveal_strlit("TileRock06");
    reveal_strlit("tile_rock06");
    reveal_strlit("tilerock06");
    assert(spec_snake_case("TileRock06"@) =~= "tile_rock06"@) by {
        reveal_with_fuel(spec_snake_case, 13);
    }
    assert(ascii_lower_seq("TileRock06"@) =~= "tilerock06"@);
}

proof fn lemma_spellings_tile_rock07()
    ensures
        spec_snake_case("TileRock07"@) == "tile_rock07"@,
        ascii_lower_seq("TileRock07"@) == "tilerock07"@,
{
    reveal_strlit("TileRock07");
    reveal_strlit("tile_rock07");
    reveal_strlit("tilerock07");
    assert(spec_snake_case("TileRock07"@) =~= "tile_rock07"@) by {
        reveal_with_fuel(spec_snake_case, 13);
    }
    assert(ascii_lower_seq("TileRock07"@) =~= "tilerock07"@);
}

/// The texture paths tried for the grass slots 0, 1, 30, 31 and 32, from the fixed slot table: the
/// slot's texture name as written, in snake case and in lower case.
pub proof fn lemma_grass_slot_textures(world_name: Seq<char>)
    ensures
        spec_default_texture_slot_candidates(world_name, 0) == seq![
            "data/"@ + world_name + "/"@ + "TileGrass01"@ + ".png"@,
            "data/"@ + world_name + "/"@ + "tile_grass01"@ + ".png"@,
            "data/"@ + world_name + "/"@ + "tilegrass01"@ + ".png"@,
        ],
        spec_default_texture_slot_candidates(world_name, 1) == seq![
            "data/"@ + world_name + "/"@ + "TileGrass02"@ + ".png"@,
            "data/"@ + world_name + "/"@ + "tile_grass02"@ + ".png"@,
            "data/"@ + world_name + "/"@ + "tilegrass02"@ + ".png"@,
        ],
        spec_default_texture_slot_candidates(world_name, 30) == seq![
            "data/"@ + world_name + "/"@ + "TileGrass01"@ + ".png"@,
            "data/"@ + world_name + "/"@ + "tile_grass01"@ + ".png"@,
            "data/"@ + world_name + "/"@ + "tilegrass01"@ + ".png"@,
        ],
        spec_default_texture_slot_candidates(world_name, 31) == seq![
            "data/"@ + world_name + "/"@ + "TileGrass02"@ + ".png"@,
            "data/"@ + world_name + "/"@ + "tile_grass02"@ + ".png"@,
            "data/"@ + world_name + "/"@ + "tilegrass02"@ + ".png"@,
        ],
        spec_default_texture_slot_candidates(world_name, 32) == seq![
            "data/"@ + world_name + "/"@ + "TileGrass03"@ + ".png"@,
            "data/"@ + world_name + "/"@ + "tile_grass03"@ + ".png"@,
            "data/"@ + world_name + "/"@ + "tilegrass03"@ + ".png"@,
        ],
{
    lemma_spellings_tile_grass01();
    lemma_named_slot(world_name, 0, "TileGrass01"@, "tile_grass01"@, "tilegrass01"@);
    lemma_spellings_tile_grass02();
    lemma_named_slot(world_name, 1, "TileGrass02"@, "tile_grass02"@, "tilegrass02"@);
    lemma_spellings_tile_grass01();
    lemma_named_slot(world_name, 30, "TileGrass01"@, "tile_grass01"@, "tilegrass01"@);
    lemma_spellings_tile_grass02();
    lemma_named_slot(world_name, 31, "TileGrass02"@, "tile_grass02"@, "tilegrass02"@);
    lemma_spellings_tile_grass03();
    lemma_named_slot(world_name, 32, "TileGrass03"@, "tile_grass03"@, "tilegrass03"@);
}

/// The texture paths tried for the ground slots 2 to 4, the water slot 5
/// and the wood slot 6, from the fixed slot table: the slot's texture name
/// as written, in snake case and in lower case.
pub proof fn lemma_ground_water_wood_slot_textures(world_name: Seq<char>)
    ensures
        spec_default_texture_slot_candidates(world_name, 2) == seq![
            "data/"@ + world_name + "/"@ + "TileGround01"@ + ".png"@,
            "data/"@ + world_name + "/"@ + "tile_ground01"@ + ".png"@,
            "data/"@ + world_name + "/"@ + "tileground01"@ + ".png"@,
        ],
        spec_default_texture_slot_candidates(world_name, 3) == seq![
            "data/"@ + world_name + "/"@ + "TileGround02"@ + ".png"@,
            "data/"@ + world_name + "/"@ + "tile_ground02"@ + ".png"@,
            "data/"@ + world_name + "/"@ + "tileground02"@ + ".png"@,
        ],
        spec_default_texture_slot_candidates(world_name, 4) == seq![
            "data/"@ + world_name + "/"@ + "TileGround03"@ + ".png"@,
            "data/"@ + world_name + "/"@ + "tile_ground03"@ + ".png"@,
            "data/"@ + world_name + "/"@ + "tileground03"@ + ".png"@,
        ],
        spec_default_texture_slot_candidates(world_name, 5) == seq![
            "data/"@ + world_name + "/"@ + "TileWater01"@ + ".png"@,
            "data/"@ + world_name + "/"@ + "tile_water01"@ + ".png"@,
            "data/"@ + world_name + "/"@ + "tilewater01"@ + ".png"@,
        ],
        spec_default_texture_slot_candidates(world_name, 6) == seq![
            "data/"@ + world_name + "/"@ + "TileWood01"@ + ".png"@,
            "data/"@ + world_name + "/"@ + "tile_wood01"@ + ".png"@,
            "data/"@ + world_name + "/"@ + "tilewood01"@ + ".png"@,
        ],
{
    lemma_spellings_tile_ground01();
    lemma_named_slot(world_name, 2, "TileGround01"@, "tile_ground01"@, "tileground01"@);
    lemma_spellings_tile_ground02();
    lemma_named_slot(world_name, 3, "TileGround02"@, "tile_ground02"@, "tileground02"@);
    lemma_spellings_tile_ground03();
    lemma_named_slot(world_name, 4, "TileGround03"@, "tile_ground03"@, "tileground03"@);
    lemma_spellings_tile_water01();
    lemma_named_slot(world_name, 5, "TileWater01"@, "tile_water01"@, "tilewater01"@);
    lemma_spellings_tile_wood01();
    lemma_named_slot(world_name, 6, "TileWood01"@, "tile_wood01"@, "tilewood01"@);
}

/// The texture paths tried for the rock slots 7 to 13, from the fixed slot table: the
/// slot's texture name as written, in snake case and in lower case.
pub proof fn lemma_rock_slot_textures(world_name: Seq<char>)
    ensures
        spec_default_texture_slot_candidates(world_name, 7) == seq![
            "data/"@ + world_name + "/"@ + "TileRock01"@ + ".png"@,
            "data/"@ + world_name + "/"@ + "tile_rock01"@ + ".png"@,
            "data/"@ + world_name + "/"@ + "tilerock01"@ + ".png"@,
        ],
        spec_default_texture_slot_candidates(world_name, 8) == seq![
            "data/"@ + world_name + "/"@ + "TileRock02"@ + ".png"@,
            "data/"@ + world_name + "/"@ + "tile_rock02"@ + ".png"@,
            "data/"@ + world_name + "/"@ + "tilerock02"@ + ".png"@,
        ],
        spec_default_texture_slot_candidates(world_name, 9) == seq![
            "data/"@ + world_name + "/"@ + "TileRock03"@ + ".png"@,
            "data/"@ + world_name + "/"@ + "tile_rock03"@ + ".png"@,
            "data/"@ + world_name + "/"@ + "tilerock03"@ + ".png"@,
        ],
        spec_default_texture_slot_candidates(world_name, 10) == seq![
            "data/"@ + world_name + "/"@ + "TileRock04"@ + ".png"@,
            "data/"@ + world_name + "/"@ + "tile_rock04"@ + ".png"@,
            "data/"@ + world_name + "/"@ + "tilerock04"@ + ".png"@,
        ],
        spec_default_texture_slot_candidates(world_name, 11) == seq![
            "data/"@ + world_name + "/"@ + "TileRock05"@ + ".png"@,
            "data/"@ + world_name + "/"@ + "tile_rock05"@ + ".png"@,
            "data/"@ + world_name + "/"@ + "tilerock05"@ + ".png"@,
        ],
        spec_default_texture_slot_candidates(world_name, 12) == seq![
            "data/"@ + world_name + "/"@ + "TileRock06"@ + ".png"@,
            "data/"@ + world_name + "/"@ + "tile_rock06"@ + ".png"@,
            "data/"@ + world_name + "/"@ + "tilerock06"@ + ".png"@,
        ],
        spec_default_texture_slot_candidates(world_name, 13) == seq![
            "data/"@ + world_name + "/"@ + "TileRock07"@ + ".png"@,
            "data/"@ + world_name + "/"@ + "tile_rock07"@ + ".png"@,
            "data/"@ + world_name + "/"@ + "tilerock07"@ + ".png"@,
        ],
{
    lemma_spellings_tile_rock01();
    lemma_named_slot(world_name, 7, "TileRock01"@, "tile_rock01"@, "tilerock01"@);
    lemma_spellings_tile_rock02();
    lemma_named_slot(world_name, 8, "TileRock02"@, "tile_rock02"@, "tilerock02"@);
    lemma_spellings_tile_rock03();
    lemma_named_slot(world_name, 9, "TileRock03"@, "tile_rock03"@, "tilerock03"@);
    lemma_spellings_tile_rock04();
    lemma_named_slot(world_name, 10, "TileRock04"@, "tile_rock04"@, "tilerock04"@);
    lemma_spellings_tile_rock05();
    lemma_named_slot(world_name, 11, "TileRock05"@, "tile_rock05"@, "tilerock05"@);
    lemma_spellings_tile_rock06();
    lemma_named_slot(world_name, 12, "TileRock06"@, "tile_rock06"@, "tilerock06"@);
    lemma_spellings_tile_rock07();
    lemma_named_slot(world_name, 13, "TileRock07"@, "tile_rock07"@, "tilerock07"@);
}

/// The texture paths tried first for the extension slots 14 to 29: the
/// extension tile `ExtTileNN`, then `ext_tileNN`, with NN = slot - 13 in two
/// digits, three spellings each.
pub proof fn lemma_extension_slot_texture_table(world_name: Seq<char>)
    ensures
        spec_default_texture_slot_candidates(world_name, 14).len() == 6,
        spec_default_texture_slot_candidates(world_name, 14)[0] == "data/"@ + world_name + "/"@ + "ExtTile01"@ + ".png"@,
        spec_default_texture_slot_candidates(world_name, 14)[3] == "data/"@ + world_name + "/"@ + "ext_tile01"@ + ".png"@,
        spec_default_texture_slot_candidates(world_name, 15).len() == 6,
        spec_default_texture_slot_candidates(world_name, 15)[0] == "data/"@ + world_name + "/"@ + "ExtTile02"@ + ".png"@,
        spec_default_texture_slot_candidates(world_name, 15)[3] == "data/"@ + world_name + "/"@ + "ext_tile02"@ + ".png"@,
        spec_default_texture_slot_candidates(world_name, 16).len() == 6,
        spec_default_texture_slot_candidates(world_name, 16)[0] == "data/"@ + world_name + "/"@ + "ExtTile03"@ + ".png"@,
        spec_default_texture_slot_candidates(world_name, 16)[3] == "data/"@ + world_name + "/"@ + "ext_tile03"@ + ".png"@,
        spec_default_texture_slot_candidates(world_name, 17).len() == 6,
        spec_default_texture_slot_candidates(world_name, 17)[0] == "data/"@ + world_name + "/"@ + "ExtTile04"@ + ".png"@,
        spec_default_texture_slot_candidates(world_name, 17)[3] == "data/"@ + world_name + "/"@ + "ext_tile04"@ + ".png"@,
        spec_default_texture_slot_candidates(world_name, 18).len() == 6,
        spec_default_texture_slot_candidates(world_name, 18)[0] == "data/"@ + world_name + "/"@ + "ExtTile05"@ + ".png"@,
        spec_default_texture_slot_candidates(world_name, 18)[3] == "data/"@ + world_name + "/"@ + "ext_tile05"@ + ".png"@,
        spec_default_texture_slot_candidates(world_name, 19).len() == 6,
        spec_default_texture_slot_candidates(world_name, 19)[0] == "data/"@ + world_name + "/"@ + "ExtTile06"@ + ".png"@,
        spec_default_texture_slot_candidates(world_name, 19)[3] == "data/"@ + world_name + "/"@ + "ext_tile06"@ + ".png"@,
        spec_default_texture_slot_candidates(world_name, 20).len() == 6,
        spec_default_texture_slot_candidates(world_name, 20)[0] == "data/"@ + world_name + "/"@ + "ExtTile07"@ + ".png"@,
        spec_default_texture_slot_candidates(world_name, 20)[3] == "data/"@ + world_name + "/"@ + "ext_tile07"@ + ".png"@,
        spec_default_texture_slot_candidates(world_name, 21).len() == 6,
        spec_default_texture_slot_candidates(world_name, 21)[0] == "data/"@ + world_name + "/"@ + "ExtTile08"@ + ".png"@,
        spec_default_texture_slot_candidates(world_name, 21)[3] == "data/"@ + world_name + "/"@ + "ext_tile08"@ + ".png"@,
        spec_default_texture_slot_candidates(world_name, 22).len() == 6,
        spec_default_texture_slot_candidates(world_name, 22)[0] == "data/"@ + world_name + "/"@ + "ExtTile09"@ + ".png"@,
        spec_default_texture_slot_candidates(world_name, 22)[3] == "data/"@ + world_name + "/"@ + "ext_tile09"@ + ".png"@,
        spec_default_texture_slot_candidates(world_name, 23).len() == 6,
        spec_default_texture_slot_candidates(world_name, 23)[0] == "data/"@ + world_name + "/"@ + "ExtTile10"@ + ".png"@,
        spec_default_texture_slot_candidates(world_name, 23)[3] == "data/"@ + world_name + "/"@ + "ext_tile10"@ + ".png"@,
        spec_default_texture_slot_candidates(world_name, 24).len() == 6,
        spec_default_texture_slot_candidates(world_name, 24)[0] == "data/"@ + world_name + "/"@ + "ExtTile11"@ + ".png"@,
        spec_default_texture_slot_candidates(world_name, 24)[3] == "data/"@ + world_name + "/"@ + "ext_tile11"@ + ".png"@,
        spec_default_texture_slot_candidates(world_name, 25).len() == 6,
        spec_default_texture_slot_candidates(world_name, 25)[0] == "data/"@ + world_name + "/"@ + "ExtTile12"@ + ".png"@,
        spec_default_texture_slot_candidates(world_name, 25)[3] == "data/"@ + world_name + "/"@ + "ext_tile12"@ + ".png"@,
        spec_default_texture_slot_candidates(world_name, 26).len() == 6,
        spec_default_texture_slot_candidates(world_name, 26)[0] == "data/"@ + world_name + "/"@ + "ExtTile13"@ + ".png"@,
        spec_default_texture_slot_candidates(world_name, 26)[3] == "data/"@ + world_name + "/"@ + "ext_tile13"@ + ".png"@,
        spec_default_texture_slot_candidates(world_name, 27).len() == 6,
        spec_default_texture_slot_candidates(world_name, 27)[0] == "data/"@ + world_name + "/"@ + "ExtTile14"@ + ".png"@,
        spec_default_texture_slot_candidates(world_name, 27)[3] == "data/"@ + world_name + "/"@ + "ext_tile14"@ + ".png"@,
        spec_default_texture_slot_candidates(world_name, 28).len() == 6,
        spec_default_texture_slot_candidates(world_name, 28)[0] == "data/"@ + world_name + "/"@ + "ExtTile15"@ + ".png"@,
        spec_default_texture_slot_candidates(world_name, 28)[3] == "data/"@ + world_name + "/"@ + "ext_tile15"@ + ".png"@,
        spec_default_texture_slot_candidates(world_name, 29).len() == 6,
        spec_default_texture_slot_candidates(world_name, 29)[0] == "data/"@ + world_name + "/"@ + "ExtTile16"@ + ".png"@,
        spec_default_texture_slot_candidates(world_name, 29)[3] == "data/"@ + world_name + "/"@ + "ext_tile16"@ + ".png"@,
{
    assert(spec_slot_texture_names(14) =~= seq!["ExtTile01"@, "ext_tile01"@]) by {
        reveal_strlit("ExtTile");
        reveal_strlit("ext_tile");
        reveal_strlit("ExtTile01");
        reveal_strlit("ext_tile01");
        assert("ExtTile"@ + two_digits(1) =~= "ExtTile01"@);
        assert("ext_tile"@ + two_digits(1) =~= "ext_tile01"@);
    }
    lemma_extension_slot(world_name, 14, "ExtTile01"@, "ext_tile01"@);
    assert(spec_slot_texture_names(15) =~= seq!["ExtTile02"@, "ext_tile02"@]) by {
        reveal_strlit("ExtTile");
        reveal_strlit("ext_tile");
        reveal_strlit("ExtTile02");
        reveal_strlit("ext_tile02");
        assert("ExtTile"@ + two_digits(2) =~= "ExtTile02"@);
        assert("ext_tile"@ + two_digits(2) =~= "ext_tile02"@);
    }
    lemma_extension_slot(world_name, 15, "ExtTile02"@, "ext_tile02"@);
    assert(spec_slot_texture_names(16) =~= seq!["ExtTile03"@, "ext_tile03"@]) by {
        reveal_strlit("ExtTile");
        reveal_strlit("ext_tile");
        reveal_strlit("ExtTile03");
        reveal_strlit("ext_tile03");
        assert("ExtTile"@ + two_digits(3) =~= "ExtTile03"@);
        assert("ext_tile"@ + two_digits(3) =~= "ext_tile03"@);
    }
    lemma_extension_slot(world_name, 16, "ExtTile03"@, "ext_tile03"@);
    assert(spec_slot_texture_names(17) =~= seq!["ExtTile04"@, "ext_tile04"@]) by {
        reveal_strlit("ExtTile");
        reveal_strlit("ext_tile");
        reveal_strlit("ExtTile04");
        reveal_strlit("ext_tile04");
        assert("ExtTile"@ + two_digits(4) =~= "ExtTile04"@);
        assert("ext_tile"@ + two_digits(4) =~= "ext_tile04"@);
    }
    lemma_extension_slot(world_name, 17, "ExtTile04"@, "ext_tile04"@);
    assert(spec_slot_texture_names(18) =~= seq!["ExtTile05"@, "ext_tile05"@]) by {
        reveal_strlit("ExtTile");
        reveal_strlit("ext_tile");
        reveal_strlit("ExtTile05");
        reveal_strlit("ext_tile05");
        assert("ExtTile"@ + two_digits(5) =~= "ExtTile05"@);
        assert("ext_tile"@ + two_digits(5) =~= "ext_tile05"@);
    }
    lemma_extension_slot(world_name, 18, "ExtTile05"@, "ext_tile05"@);
    assert(spec_slot_texture_names(19) =~= seq!["ExtTile06"@, "ext_tile06"@]) by {
        reveal_strlit("ExtTile");
        reveal_strlit("ext_tile");
        reveal_strlit("ExtTile06");
        reveal_strlit("ext_tile06");
        assert("ExtTile"@ + two_digits(6) =~= "ExtTile06"@);
        assert("ext_tile"@ + two_digits(6) =~= "ext_tile06"@);
    }
    lemma_extension_slot(world_name, 19, "ExtTile06"@, "ext_tile06"@);
    assert(spec_slot_texture_names(20) =~= seq!["ExtTile07"@, "ext_tile07"@]) by {
        reveal_strlit("ExtTile");
        reveal_strlit("ext_tile");
        reveal_strlit("ExtTile07");
        reveal_strlit("ext_tile07");
        assert("ExtTile"@ + two_digits(7) =~= "ExtTile07"@);
        assert("ext_tile"@ + two_digits(7) =~= "ext_tile07"@);
    }
    lemma_extension_slot(world_name, 20, "ExtTile07"@, "ext_tile07"@);
    assert(spec_slot_texture_names(21) =~= seq!["ExtTile08"@, "ext_tile08"@]) by {
        reveal_strlit("ExtTile");
        reveal_strlit("ext_tile");
        reveal_strlit("ExtTile08");
        reveal_strlit("ext_tile08");
        assert("ExtTile"@ + two_digits(8) =~= "ExtTile08"@);
        assert("ext_tile"@ + two_digits(8) =~= "ext_tile08"@);
    }
    lemma_extension_slot(world_name, 21, "ExtTile08"@, "ext_tile08"@);
    assert(spec_slot_texture_names(22) =~= seq!["ExtTile09"@, "ext_tile09"@]) by {
        reveal_strlit("ExtTile");
        reveal_strlit("ext_tile");
        reveal_strlit("ExtTile09");
        reveal_strlit("ext_tile09");
        assert("ExtTile"@ + two_digits(9) =~= "ExtTile09"@);
        assert("ext_tile"@ + two_digits(9) =~= "ext_tile09"@);
    }
    lemma_extension_slot(world_name, 22, "ExtTile09"@, "ext_tile09"@);
    assert(spec_slot_texture_names(23) =~= seq!["ExtTile10"@, "ext_tile10"@]) by {
        reveal_strlit("ExtTile");
        reveal_strlit("ext_tile");
        reveal_strlit("ExtTile10");
        reveal_strlit("ext_tile10");
        assert("ExtTile"@ + two_digits(10) =~= "ExtTile10"@);
        assert("ext_tile"@ + two_digits(10) =~= "ext_tile10"@);
    }
    lemma_extension_slot(world_name, 23, "ExtTile10"@, "ext_tile10"@);
    assert(spec_slot_texture_names(24) =~= seq!["ExtTile11"@, "ext_tile11"@]) by {
        reveal_strlit("ExtTile");
        reveal_strlit("ext_tile");
        reveal_strlit("ExtTile11");
        reveal_strlit("ext_tile11");
        assert("ExtTile"@ + two_digits(11) =~= "ExtTile11"@);
        assert("ext_tile"@ + two_digits(11) =~= "ext_tile11"@);
    }
    lemma_extension_slot(world_name, 24, "ExtTile11"@, "ext_tile11"@);
    assert(spec_slot_texture_names(25) =~= seq!["ExtTile12"@, "ext_tile12"@]) by {
        reveal_strlit("ExtTile");
        reveal_strlit("ext_tile");
        reveal_strlit("ExtTile12");
        reveal_strlit("ext_tile12");
        assert("ExtTile"@ + two_digits(12) =~= "ExtTile12"@);
        assert("ext_tile"@ + two_digits(12) =~= "ext_tile12"@);
    }
    lemma_extension_slot(world_name, 25, "ExtTile12"@, "ext_tile12"@);
    assert(spec_slot_texture_names(26) =~= seq!["ExtTile13"@, "ext_tile13"@]) by {
        reveal_strlit("ExtTile");
        reveal_strlit("ext_tile");
        reveal_strlit("ExtTile13");
        reveal_strlit("ext_tile13");
        assert("ExtTile"@ + two_digits(13) =~= "ExtTile13"@);
        assert("ext_tile"@ + two_digits(13) =~= "ext_tile13"@);
    }
    lemma_extension_slot(world_name, 26, "ExtTile13"@, "ext_tile13"@);
    assert(spec_slot_texture_names(27) =~= seq!["ExtTile14"@, "ext_tile14"@]) by {
        reveal_strlit("ExtTile");
        reveal_strlit("ext_tile");
        reveal_strlit("ExtTile14");
        reveal_strlit("ext_tile14");
        assert("ExtTile"@ + two_digits(14) =~= "ExtTile14"@);
        assert("ext_tile"@ + two_digits(14) =~= "ext_tile14"@);
    }
    lemma_extension_slot(world_name, 27, "ExtTile14"@, "ext_tile14"@);
    assert(spec_slot_texture_names(28) =~= seq!["ExtTile15"@, "ext_tile15"@]) by {
        reveal_strlit("ExtTile");
        reveal_strlit("ext_tile");
        reveal_strlit("ExtTile15");
        reveal_strlit("ext_tile15");
        assert("ExtTile"@ + two_digits(15) =~= "ExtTile15"@);
        assert("ext_tile"@ + two_digits(15) =~= "ext_tile15"@);
    }
    lemma_extension_slot(world_name, 28, "ExtTile15"@, "ext_tile15"@);
    assert(spec_slot_texture_names(29) =~= seq!["ExtTile16"@, "ext_tile16"@]) by {
        reveal_strlit("ExtTile");
        reveal_strlit("ext_tile");
        reveal_strlit("ExtTile16");
        reveal_strlit("ext_tile16");
        assert("ExtTile"@ + two_digits(16) =~= "ExtTile16"@);
        assert("ext_tile"@ + two_digits(16) =~= "ext_tile16"@);
    }
    lemma_extension_slot(world_name, 29, "ExtTile16"@, "ext_tile16"@);
}

/// Slots above 32 have no built-in texture.
pub proof fn lemma_unnamed_slots_have_no_texture(world_name: Seq<char>, slot: u8)
    requires
        33 <= slot,
    ensures
        spec_default_texture_slot_candidates(world_name, slot).len() == 0,
{
    assert(spec_slot_texture_names(slot) =~= Seq::<Seq<char>>::empty());
}

/// Built-in grass texture names of a terrain slot: `TileGrass01` and
/// `tile_grass01` for slots 0 and 30, `TileGrass02`/`tile_grass02` for 1 and
/// 31, `TileGrass03`/`tile_grass03` for 32, none for the others.
pub open spec fn spec_grass_names(slot: u8) -> Seq<Seq<char>> {
    if slot == 0 || slot == 30 {
        seq!["TileGrass01"@, "tile_grass01"@]
    } else if slot == 1 || slot == 31 {
        seq!["TileGrass02"@, "tile_grass02"@]
    } else if slot == 32 {
        seq!["TileGrass03"@, "tile_grass03"@]
    } else {
        Seq::empty()
    }
}

/// The built-in grass names agree with the terrain slot table: a slot has
/// grass names exactly when its terrain texture is a grass tile (slots 0, 1,
/// 30, 31 and 32), and they are that texture's name as written and in snake
/// case: for slot 0 `TileGrass01` and `tile_grass01`, for slot 32
/// `TileGrass03` and `tile_grass03`.
pub proof fn lemma_grass_names_follow_slot_table(slot: u8)
    ensures
        spec_grass_names(slot).len() > 0 <==> (slot == 0 || slot == 1 || slot == 30 || slot == 31
            || slot == 32),
        spec_grass_names(slot).len() > 0 ==> {
            &&& spec_grass_names(slot).len() == 2
            &&& spec_slot_texture_names(slot).len() == 1
            &&& spec_grass_names(slot)[0] == spec_slot_texture_names(slot)[0]
            &&& spec_grass_names(slot)[1] == spec_snake_case(spec_slot_texture_names(slot)[0])
        },
        slot == 0 || slot == 30 ==> spec_grass_names(slot) == seq!["TileGrass01"@, "tile_grass01"@],
        slot == 1 || slot == 31 ==> spec_grass_names(slot) == seq!["TileGrass02"@, "tile_grass02"@],
        slot == 32 ==> spec_grass_names(slot) == seq!["TileGrass03"@, "tile_grass03"@],
{
    lemma_spellings_tile_grass01();
    lemma_spellings_tile_grass02();
    lemma_spellings_tile_grass03();
}

/// Returns the built-in grass texture paths of a terrain slot: each name of
/// [`spec_grass_names`] as `data/<world>/<name>.png`.
pub fn default_grass_candidates(world_name: &str, slot: u8) -> (r: Vec<String>)
    ensures
        r@.map_values(|s: String| s@) == spec_grass_names(slot).map_values(
            |n: Seq<char>| spec_png_path(world_name@, n),
        ),
{
    let mut names: Vec<String> = Vec::new();
    if slot == 0 || slot == 30 {
        names.push(String::from_str("TileGrass01"));
        names.push(String::from_str("tile_grass01"));
    } else if slot == 1 || slot == 31 {
        names.push(String::from_str("TileGrass02"));
        names.push(String::from_str("tile_grass02"));
    } else if slot == 32 {
        names.push(String::from_str("TileGrass03"));
        names.push(String::from_str("tile_grass03"));
    }
    let ghost name_views = names@.map_values(|s: String| s@);
    assert(name_views =~= spec_grass_names(slot));
    let mut r: Vec<String> = Vec::new();
    let mut i: usize = 0;
    while i < names.len()
        invariant
            i <= names@.len(),
            name_views == names@.map_values(|s: String| s@),
            r@.map_values(|s: String| s@) == name_views.subrange(0, i as int).map_values(
                |n: Seq<char>| spec_png_path(world_name@, n),
            ),
        decreases names@.len() - i,
    {
        assert(name_views[i as int] == names@[i as int]@);
        let ghost before = r@.map_values(|s: String| s@);
        let path = png_path(world_name, &names[i]);
        r.push(path);
        i = i + 1;
        proof {
            assert(r@.map_values(|s: String| s@) =~= before.push(path@));
            assert(name_views.subrange(0, i as int).map_values(
                |n: Seq<char>| spec_png_path(world_name@, n),
            ) =~= name_views.subrange(0, i - 1).map_values(
                |n: Seq<char>| spec_png_path(world_name@, n),
            ).push(spec_png_path(world_name@, name_views[i - 1])));
        }
    }
    assert(name_views.subrange(0, names@.len() as int) =~= name_views);
    r
}

/// The grass texture paths tried when the texture slot data names no grass
/// texture, in the order they are tried: for each of `tile_grass01`,
/// `tile_grass03` and `tile_grass02`, that file, then `TileGrass01`,
/// `TileGrass03` and `TileGrass02`.
pub open spec fn spec_grass_texture_fallbacks(world_name: Seq<char>) -> Seq<Seq<char>> {
    let cased = seq![
        spec_png_path(world_name, "TileGrass01"@),
        spec_png_path(world_name, "TileGrass03"@),
        spec_png_path(world_name, "TileGrass02"@),
    ];
    seq![spec_png_path(world_name, "tile_grass01"@)] + cased + seq![
        spec_png_path(world_name, "tile_grass03"@),
    ] + cased + seq![spec_png_path(world_name, "tile_grass02"@)] + cased
}

/// Returns the grass texture paths tried when the texture slot data names no
/// grass texture; see [`spec_grass_texture_fallbacks`].
pub fn grass_texture_fallbacks(world_name: &str) -> (r: Vec<String>)
    ensures
        r@.map_values(|s: String| s@) == spec_grass_texture_fallbacks(world_name@),
{
    let mut r: Vec<String> = Vec::new();
    let lower_names = [
        String::from_str("tile_grass01"),
        String::from_str("tile_grass03"),
        String::from_str("tile_grass02"),
    ];
    let cased_names = [
        String::from_str("TileGrass01"),
        String::from_str("TileGrass03"),
        String::from_str("TileGrass02"),
    ];
    r.push(png_path(world_name, &lower_names[0]));
    r.push(png_path(world_name, &cased_names[0]));
    r.push(png_path(world_name, &cased_names[1]));
    r.push(png_path(world_name, &cased_names[2]));
    r.push(png_path(world_name, &lower_names[1]));
    r.push(png_path(world_name, &cased_names[0]));
    r.push(png_path(world_name, &cased_names[1]));
    r.push(png_path(world_name, &cased_names[2]));
    r.push(png_path(world_name, &lower_names[2]));
    r.push(png_path(world_name, &cased_names[0]));
    r.push(png_path(world_name, &cased_names[1]));
    r.push(png_path(world_name, &cased_names[2]));
    proof {
        assert(r@.map_values(|s: String| s@) =~= spec_grass_texture_fallbacks(world_name@));
    }
    r
}


/// The sky textures tried, in order: the bundled panorama, then the
/// world's own map and light textures, then shared cloud textures.
pub open spec fn spec_skybox_texture_candidates(world_name: Seq<char>) -> Seq<Seq<char>> {
    seq![
        "sky/hausdorf_clear_sky_2560.jpg"@,
        spec_world_asset_path(world_name, "map1.png"@),
        spec_world_asset_path(world_name, "map2.png"@),
        spec_world_asset_path(world_name, "map_form.png"@),
        spec_world_asset_path(world_name, "terrain_light.png"@),
        spec_world_asset_path(world_name, "terrainlight.png"@),
        "data/logo/sos3sky01.png"@,
        "data/logo/sos3sky02.png"@,
        "data/logo/cloud.png"@,
        "data/logo/bkcloud.png"@,
        "data/effect/clouds.png"@,
        "data/effect/clouds4.png"@,
    ]
}

/// Returns the sky textures tried; see [`spec_skybox_texture_candidates`].
pub fn skybox_texture_candidates(world_name: &str) -> (r: Vec<String>)
    ensures
        r@.map_values(|s: String| s@) == spec_skybox_texture_candidates(world_name@),
{
    let mut r: Vec<String> = Vec::new();
    r.push(String::from_str("sky/hausdorf_clear_sky_2560.jpg"));
    r.push(world_asset_path(world_name, "map1.png"));
    r.push(world_asset_path(world_name, "map2.png"));
    r.push(world_asset_path(world_name, "map_form.png"));
    r.push(world_asset_path(world_name, "terrain_light.png"));
    r.push(world_asset_path(world_name, "terrainlight.png"));
    r.push(String::from_str("data/logo/sos3sky01.png"));
    r.push(String::from_str("data/logo/sos3sky02.png"));
    r.push(String::from_str("data/logo/cloud.png"));
    r.push(String::from_str("data/logo/bkcloud.png"));
    r.push(String::from_str("data/effect/clouds.png"));
    r.push(String::from_str("data/effect/clouds4.png"));
    proof {
        assert(r@.map_values(|s: String| s@) =~= spec_skybox_texture_candidates(world_name@));
    }
    r
}

/// Which of a world's assets have finished loading.
#[derive(Debug, Clone, Copy, PartialEq, Eq, Structural)]
pub struct SceneAssetReadiness {
    pub terrain_config: bool,
    pub heightmap: bool,
    pub terrain_map: bool,
    /// `None` where the world has no legacy terrain map.
    pub legacy_terrain_map: Option<bool>,
    pub scene_objects: bool,
    pub camera_tour: bool,
    /// `None` where the world has no map effect profile.
    pub map_vfx: Option<bool>,
}

impl SceneAssetReadiness {
    /// A world is ready when its terrain configuration, height map, scene
    /// objects and camera tour are loaded, its terrain map or legacy
    /// terrain map is, and its map effect profile is, where it has one.
    pub open spec fn spec_is_ready(self) -> bool {
        &&& self.terrain_config
        &&& self.heightmap
        &&& (self.terrain_map || self.legacy_terrain_map == Some(true))
        &&& self.scene_objects
        &&& self.camera_tour
        &&& self.map_vfx != Some(false)
    }

    pub fn is_ready(&self) -> (r: bool)
        ensures
            r == self.spec_is_ready(),
    {
        let terrain_map_ready = self.terrain_map || match self.legacy_terrain_map {
            Some(loaded) => loaded,
            None => false,
        };
        let map_vfx_ready = match self.map_vfx {
            Some(loaded) => loaded,
            None => true,
        };
        self.terrain_config && self.heightmap && terrain_map_ready && self.scene_objects
            && self.camera_tour && map_vfx_ready
    }
}

} // verus!
