//! Game data, wire protocol and client-side rules for a MU Online client.

pub mod camera_tour;
pub mod channel;
pub mod codec;
pub mod de;
pub mod death_stab;
pub mod debug_modes;
pub mod header;
pub mod layout;
pub mod message;
pub mod packet_offsets;
pub mod packets;
pub mod pools;
pub mod scene_objects;
pub mod scene_paths;
pub mod scene_stats;
pub mod ser;
pub mod settings;
pub mod terrain;
pub mod text;
pub mod vfx;
pub mod world_coordinates;
pub mod world_map;

use vstd::prelude::*;

verus! {

/// Returns the protocol crate version string.
pub fn protocol_version() -> (r: &'static str)
    ensures
        r@ == "0.1.0"@,
{
    "0.1.0"
}

} // verus!
