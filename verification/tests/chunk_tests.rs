use chunkmesh::chunk::{CHUNK_LEN, CHUNK_SIZE, Chunk, index_of, index_to_pos};
use chunkmesh::geom::IVec3;

fn origin() -> IVec3 {
    IVec3::new(0, 0, 0)
}

#[test]
fn index_pos_roundtrip_all_cells() {
    for i in 0..CHUNK_LEN {
        let (x, y, z) = index_to_pos(i);
        assert!(x < CHUNK_SIZE && y < CHUNK_SIZE && z < CHUNK_SIZE);
        assert_eq!(index_of(x, y, z), i);
    }
}

#[test]
fn pos_index_roundtrip_all_positions() {
    for x in 0..CHUNK_SIZE {
        for y in 0..CHUNK_SIZE {
            for z in 0..CHUNK_SIZE {
                let i = index_of(x, y, z);
                assert_eq!(index_to_pos(i), (x, y, z));
            }
        }
    }
}

#[test]
fn at_out_of_bounds_is_empty() {
    let mut c = Chunk::new(origin());
    for x in 0..16 {
        for y in 0..16 {
            for z in 0..16 {
                c.set_at(x, y, z, Some(1));
            }
        }
    }
    assert_eq!(c.at(-1, 0, 0), None);
    assert_eq!(c.at(16, 0, 0), None);
    assert_eq!(c.at(0, -1, 0), None);
    assert_eq!(c.at(0, 16, 0), None);
    assert_eq!(c.at(0, 0, -1), None);
    assert_eq!(c.at(0, 0, 16), None);
    assert_eq!(c.at(i32::MIN, 0, 0), None);
    assert_eq!(c.at(0, i32::MAX, 0), None);
    assert_eq!(c.at(5, 5, 5), Some(1));
}

#[test]
fn set_at_replaces_cell() {
    let mut c = Chunk::new(origin());
    assert_eq!(c.at(1, 2, 3), None);
    c.set_at(1, 2, 3, Some(7));
    assert_eq!(c.at(1, 2, 3), Some(7));
    c.set_at(1, 2, 3, Some(4));
    assert_eq!(c.at(1, 2, 3), Some(4));
    c.set_at(1, 2, 3, None);
    assert_eq!(c.at(1, 2, 3), None);
}

#[test]
fn set_at_out_of_bounds_is_a_no_op() {
    let mut c = Chunk::new(origin());
    c.set_at(-1, 0, 0, Some(3));
    c.set_at(16, 0, 0, Some(3));
    c.set_at(0, 0, 99, Some(3));
    assert!(c.is_empty());
}

#[test]
fn is_empty_tracks_contents() {
    let mut c = Chunk::new(IVec3::new(4, -2, 9));
    assert!(c.is_empty());
    c.set_at(15, 15, 15, Some(0));
    assert!(!c.is_empty());
    c.set_at(15, 15, 15, None);
    assert!(c.is_empty());
}
