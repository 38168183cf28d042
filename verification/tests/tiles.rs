use mbtiles_gateway::mbtile_project::mbtile_project_y;
use mbtiles_gateway::tiles::{
    container_file_name, is_gzip_tile, resolve_tile_response, tile_fs_path, TileFetchOutcome,
    TileResponse,
};

#[test]
fn projection_scenario() {
    // z = 2, y = 1: storage row is 2^2 - 1 - 1 = 2.
    assert_eq!(mbtile_project_y(0, 1, 2), 2);
}

#[test]
fn projection_edges() {
    assert_eq!(mbtile_project_y(7, 0, 0), 0);
    assert_eq!(mbtile_project_y(0, 0, 1), 1);
    assert_eq!(mbtile_project_y(0, 255, 8), 0);
    assert_eq!(mbtile_project_y(0, 0, 62), (1i64 << 62) - 1);
}

#[test]
fn projection_round_trip() {
    for z in 0..8i64 {
        for y in 0..(1i64 << z) {
            assert_eq!(mbtile_project_y(0, mbtile_project_y(0, y, z), z), y);
        }
    }
}

#[test]
fn gzip_probe() {
    assert!(is_gzip_tile(&vec![0x1f, 0x8b, 0x00]));
    assert!(is_gzip_tile(&vec![0x1f, 0x8b]));
    assert!(!is_gzip_tile(&vec![0x1f]));
    assert!(!is_gzip_tile(&vec![]));
    assert!(!is_gzip_tile(&vec![0x00, 0x8b, 0x1f]));
}

#[test]
fn tile_response_mapping() {
    match resolve_tile_response(TileFetchOutcome::Data(vec![0x1f, 0x8b, 0x01])) {
        TileResponse::Success { body, gzip } => {
            assert_eq!(body, vec![0x1f, 0x8b, 0x01]);
            assert!(gzip);
        },
        other => panic!("expected success, got {:?}", other),
    }
    match resolve_tile_response(TileFetchOutcome::Data(vec![0x02, 0x03])) {
        TileResponse::Success { body, gzip } => {
            assert_eq!(body, vec![0x02, 0x03]);
            assert!(!gzip);
        },
        other => panic!("expected success, got {:?}", other),
    }
    assert!(matches!(
        resolve_tile_response(TileFetchOutcome::Data(vec![])),
        TileResponse::NotFound
    ));
    assert!(matches!(
        resolve_tile_response(TileFetchOutcome::NotFound),
        TileResponse::NotFound
    ));
    assert!(matches!(
        resolve_tile_response(TileFetchOutcome::StoreError),
        TileResponse::InternalError
    ));
}

#[test]
fn filesystem_path_layout() {
    // Row 1 of zoom 2 is stored as row 2; the map name is sanitized.
    assert_eq!(tile_fs_path("world", 3, 1, 2), "world/2/2/3");
}

#[test]
fn filesystem_path_sanitizes_traversal() {
    assert_eq!(tile_fs_path("../world", 0, 0, 0), "..world/0/0/0");
    assert_eq!(tile_fs_path("a/b", 3, 1, 2), "ab/2/2/3");
}

#[test]
fn filesystem_path_negative_coordinates() {
    assert_eq!(tile_fs_path("m", -7, -1, 0), "m/0/1/-7");
}

#[test]
fn container_file_names() {
    assert_eq!(container_file_name("world"), "world.mbtiles");
    assert_eq!(container_file_name("../x"), "..x.mbtiles");
}
