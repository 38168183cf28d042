//! Tile request handling after gateway approval: storage paths, the
//! gzip probe for vector tiles, and the mapping from store outcomes to
//! response outcomes.

use vstd::prelude::*;
use vstd::string::StringExecFns;
use crate::decimal::{dec_int, push_decimal_i64};
use crate::mbtile_project::spec_project_y;

verus! {

/// What `sanitize_filename::sanitize_with_options` returns for a name,
/// under the fixed options used here.
pub uninterp spec fn sanitized_of(name: Seq<char>) -> Seq<char>;

/// Relies on sanitize_filename::sanitize_with_options: strips path
/// separators and other illegal filename characters from the map
/// identifier, with replacement by nothing, truncation, and the
/// platform-independent character set, so the result depends on the
/// argument alone.
#[verifier::external_body]
fn sanitize_map_name(name: &str) -> (r: String)
    ensures
        r@ == sanitized_of(name@),
{
    sanitize_filename::sanitize_with_options(
        name,
        sanitize_filename::Options { windows: false, truncate: true, replacement: "" },
    )
}

/// The relative storage path of a tile under the filesystem layout:
/// `mapName/z/projected_y/x`, with the map name sanitized and the row
/// index projected to the storage convention.
pub open spec fn spec_tile_fs_path(name: Seq<char>, x: int, y: int, z: nat) -> Seq<char> {
    sanitized_of(name) + seq!['/'] + dec_int(z as int) + seq!['/'] + dec_int(
        spec_project_y(y, z),
    ) + seq!['/'] + dec_int(x)
}

/// Builds the relative path of the requested tile under the filesystem
/// layout, sanitizing the map name against path traversal and applying
/// the row-origin flip to the row index.
pub fn tile_fs_path(map_name: &str, x: i64, y: i64, z: i64) -> (r: String)
    requires
        0 <= z <= 62,
        i64::MIN <= spec_project_y(y as int, z as nat) <= i64::MAX,
    ensures
        r@ == spec_tile_fs_path(map_name@, x as int, y as int, z as nat),
{
    proof {
        reveal_strlit("/");
    }
    let mut r = sanitize_map_name(map_name);
    r.append("/");
    push_decimal_i64(&mut r, z);
    r.append("/");
    let py = crate::mbtile_project::mbtile_project_y(x, y, z);
    push_decimal_i64(&mut r, py);
    r.append("/");
    push_decimal_i64(&mut r, x);
    proof {
        assert(r@ =~= spec_tile_fs_path(map_name@, x as int, y as int, z as nat));
    }
    r
}

/// The container file name of a map under the embedded-database layout:
/// the sanitized map name with the container suffix.
pub open spec fn spec_container_file(name: Seq<char>) -> Seq<char> {
    sanitized_of(name) + ".mbtiles"@
}

/// Builds the container file name for the requested map under the
/// embedded-database layout.
pub fn container_file_name(map_name: &str) -> (r: String)
    ensures
        r@ == spec_container_file(map_name@),
{
    let mut r = sanitize_map_name(map_name);
    r.append(".mbtiles");
    r
}

/// Whether tile bytes begin with the gzip magic bytes and are therefore
/// served as compressed protocol-buffer vector data.
pub open spec fn spec_is_gzip(b: Seq<u8>) -> bool {
    b.len() >= 2 && b[0] == 0x1f && b[1] == 0x8b
}

/// Probes tile bytes for the gzip magic.
pub fn is_gzip_tile(data: &Vec<u8>) -> (r: bool)
    ensures
        r == spec_is_gzip(data@),
{
    data.len() >= 2 && data[0] == 0x1f && data[1] == 0x8b
}

/// What the tile store yielded for a request, as the storage backend
/// reported it.
#[derive(Debug)]
pub enum TileFetchOutcome {
    /// The stored bytes of the tile; empty bytes mean the row is absent.
    Data(Vec<u8>),
    /// Map or tile not present at some stage of the lookup.
    NotFound,
    /// The store could be opened but not read or queried.
    StoreError,
}

/// The terminal response for a tile request.
#[derive(Debug)]
pub enum TileResponse {
    /// Tile bytes to serve, with whether they are gzip-compressed
    /// vector data.
    Success { body: Vec<u8>, gzip: bool },
    /// Not-found response.
    NotFound,
    /// Internal-error response.
    InternalError,
}

/// Translates a store outcome to the response outcome: data found is
/// served (marked compressed when it carries the gzip magic), absence at
/// any stage is not-found, and a store failure is an internal error.
pub fn resolve_tile_response(outcome: TileFetchOutcome) -> (r: TileResponse)
    ensures
        match outcome {
            TileFetchOutcome::Data(b) => if b@.len() == 0 {
                r is NotFound
            } else {
                r matches TileResponse::Success { body, gzip } && body@ == b@ && gzip
                    == spec_is_gzip(b@)
            },
            TileFetchOutcome::NotFound => r is NotFound,
            TileFetchOutcome::StoreError => r is InternalError,
        },
{
    match outcome {
        TileFetchOutcome::Data(b) => {
            if b.len() == 0 {
                TileResponse::NotFound
            } else {
                let gzip = is_gzip_tile(&b);
                TileResponse::Success { body: b, gzip }
            }
        },
        TileFetchOutcome::NotFound => TileResponse::NotFound,
        TileFetchOutcome::StoreError => TileResponse::InternalError,
    }
}

} // verus!
