use voxel_mesh::{Blocks, Local, MeshError, CHUNK_SIZE, CHUNK_VOLUME};

fn voxel(id: usize, solid: bool) -> Local {
    Local { id, solid }
}

#[test]
fn new_chunk_is_empty_and_marked() {
    let chunk = Blocks::new();
    assert!(chunk.is_dirty());
    for z in 0..CHUNK_SIZE {
        for y in 0..CHUNK_SIZE {
            for x in 0..CHUNK_SIZE {
                assert_eq!(chunk.get(x, y, z), Ok(voxel(0, false)));
            }
        }
    }
    assert_eq!(CHUNK_SIZE, 16);
    assert_eq!(CHUNK_VOLUME, 16 * 16 * 16);
    assert!(Blocks::default().is_dirty());
    assert_eq!(Local::new(), voxel(0, false));
    assert_eq!(Local::default(), voxel(0, false));
}

#[test]
fn set_then_get_gives_the_voxel_back() {
    let mut chunk = Blocks::new();
    for z in 0..CHUNK_SIZE {
        for y in 0..CHUNK_SIZE {
            for x in 0..CHUNK_SIZE {
                let v = voxel(x + 16 * y + 256 * z + 1, (x + y + z) % 2 == 0);
                assert_eq!(chunk.set(x, y, z, v), Ok(()));
                assert_eq!(chunk.get(x, y, z), Ok(v));
            }
        }
    }
    for z in 0..CHUNK_SIZE {
        for y in 0..CHUNK_SIZE {
            for x in 0..CHUNK_SIZE {
                assert_eq!(chunk.get(x, y, z), Ok(voxel(x + 16 * y + 256 * z + 1, (x + y + z) % 2 == 0)));
            }
        }
    }
}

#[test]
fn set_leaves_the_other_voxels() {
    let mut chunk = Blocks::new();
    chunk.set(1, 2, 3, voxel(7, true)).unwrap();
    chunk.set(3, 2, 1, voxel(9, true)).unwrap();
    assert_eq!(chunk.get(1, 2, 3), Ok(voxel(7, true)));
    assert_eq!(chunk.get(3, 2, 1), Ok(voxel(9, true)));
    assert_eq!(chunk.get(2, 1, 3), Ok(voxel(0, false)));
    assert_eq!(chunk.get(1, 3, 2), Ok(voxel(0, false)));
    assert_eq!(chunk.get(0, 0, 0), Ok(voxel(0, false)));
}

#[test]
fn coordinates_outside_the_chunk_are_refused() {
    let mut chunk = Blocks::new();
    chunk.clear_dirty();
    assert_eq!(chunk.get(15, 15, 15), Ok(voxel(0, false)));
    assert_eq!(chunk.get(16, 0, 0), Err(MeshError::OutOfBounds));
    assert_eq!(chunk.get(0, 16, 0), Err(MeshError::OutOfBounds));
    assert_eq!(chunk.get(0, 0, 16), Err(MeshError::OutOfBounds));
    assert_eq!(chunk.get(usize::MAX, usize::MAX, usize::MAX), Err(MeshError::OutOfBounds));
    assert_eq!(chunk.set(16, 0, 0, voxel(1, true)), Err(MeshError::OutOfBounds));
    assert_eq!(chunk.set(0, 16, 0, voxel(1, true)), Err(MeshError::OutOfBounds));
    assert_eq!(chunk.set(0, 0, 16, voxel(1, true)), Err(MeshError::OutOfBounds));
    assert!(!chunk.is_dirty());
    assert_eq!(chunk.get(0, 0, 0), Ok(voxel(0, false)));
    assert_eq!(chunk.set(15, 15, 15, voxel(1, true)), Ok(()));
    assert_eq!(chunk.get(15, 15, 15), Ok(voxel(1, true)));
}

#[test]
fn set_marks_the_chunk_and_clear_takes_the_mark_off() {
    let mut chunk = Blocks::new();
    chunk.clear_dirty();
    assert!(!chunk.is_dirty());
    chunk.set(4, 5, 6, voxel(2, true)).unwrap();
    assert!(chunk.is_dirty());
    chunk.clear_dirty();
    assert!(!chunk.is_dirty());
    assert_eq!(chunk.get(4, 5, 6), Ok(voxel(2, true)));
}

#[test]
fn get_mut_hands_out_the_voxel_of_get() {
    let mut chunk = Blocks::new();
    chunk.clear_dirty();
    chunk.set(1, 2, 3, voxel(5, false)).unwrap();
    chunk.clear_dirty();
    {
        let v = chunk.get_mut([1, 2, 3]).unwrap();
        assert_eq!(*v, voxel(5, false));
        v.solid = true;
    }
    assert!(chunk.is_dirty());
    assert_eq!(chunk.get(1, 2, 3), Ok(voxel(5, true)));
    assert_eq!(chunk.get(3, 2, 1), Ok(voxel(0, false)));
    chunk.clear_dirty();
    assert!(chunk.get_mut([16, 0, 0]).is_none());
    assert!(chunk.get_mut([0, 16, 0]).is_none());
    assert!(chunk.get_mut([0, 0, 16]).is_none());
    assert!(!chunk.is_dirty());
    for i in 0..16 {
        chunk.get_mut([i; 3]).unwrap().solid = true;
    }
    for i in 0..16 {
        assert_eq!(chunk.get(i, i, i).map(|v| v.solid), Ok(true));
    }
}
