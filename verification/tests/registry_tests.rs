use chunkmesh::geom::{UVRect, UV_ONE};
use chunkmesh::registry::{
    AtlasMap, BlockInfo, BlockInfoRegistry, BlockRegistry, RegistryError,
};

fn rect(i: u32) -> UVRect {
    UVRect::new(i * 1000, 0, i * 1000 + 500, 500)
}

fn atlas() -> AtlasMap {
    let mut a = AtlasMap::new();
    assert!(a.insert("grass_top.png".to_string(), rect(0)));
    assert!(a.insert("grass_side.png".to_string(), rect(1)));
    assert!(a.insert("dirt.png".to_string(), rect(2)));
    assert!(a.insert("stone.png".to_string(), rect(3)));
    a
}

fn decl(name: &str, side: &str, top: &str, bottom: &str) -> BlockInfo {
    BlockInfo {
        name: name.to_string(),
        front: side.to_string(),
        back: side.to_string(),
        left: side.to_string(),
        right: side.to_string(),
        top: top.to_string(),
        bottom: bottom.to_string(),
    }
}

#[test]
fn registry_resolves_declarations_in_order() {
    let decls = BlockInfoRegistry {
        blocks: vec![
            decl("grass", "grass_side.png", "grass_top.png", "dirt.png"),
            decl("dirt", "dirt.png", "dirt.png", "dirt.png"),
            decl("stone", "stone.png", "stone.png", "stone.png"),
        ],
    };
    let reg = BlockRegistry::build(&atlas(), &decls).unwrap();
    assert_eq!(reg.len(), 3);
    assert_eq!(reg.id_of(&"grass".to_string()), Some(0));
    assert_eq!(reg.id_of(&"dirt".to_string()), Some(1));
    assert_eq!(reg.id_of(&"stone".to_string()), Some(2));
    assert_eq!(reg.id_of(&"water".to_string()), None);
    assert_eq!(reg.blocks[0].top, rect(0));
    assert_eq!(reg.blocks[0].front, rect(1));
    assert_eq!(reg.blocks[0].bottom, rect(2));
    assert_eq!(reg.blocks[1].left, rect(2));
    assert_eq!(reg.blocks[2].back, rect(3));
}

#[test]
fn unknown_texture_fails_with_the_offending_name() {
    let decls = BlockInfoRegistry {
        blocks: vec![
            decl("grass", "grass_side.png", "grass_top.png", "dirt.png"),
            decl("sand", "sand.png", "sand.png", "sand.png"),
        ],
    };
    match BlockRegistry::build(&atlas(), &decls) {
        Err(RegistryError::UnknownTexture(name)) => assert_eq!(name, "sand.png"),
        other => panic!("expected UnknownTexture, got {:?}", other),
    }
}

#[test]
fn unknown_texture_reports_first_missing_in_face_order() {
    let mut d = decl("odd", "stone.png", "stone.png", "stone.png");
    d.back = "missing_back.png".to_string();
    d.top = "missing_top.png".to_string();
    let decls = BlockInfoRegistry { blocks: vec![d] };
    match BlockRegistry::build(&atlas(), &decls) {
        Err(RegistryError::UnknownTexture(name)) => assert_eq!(name, "missing_back.png"),
        other => panic!("expected UnknownTexture, got {:?}", other),
    }
}

#[test]
fn duplicate_block_name_fails() {
    let decls = BlockInfoRegistry {
        blocks: vec![
            decl("stone", "stone.png", "stone.png", "stone.png"),
            decl("dirt", "dirt.png", "dirt.png", "dirt.png"),
            decl("stone", "dirt.png", "dirt.png", "dirt.png"),
        ],
    };
    match BlockRegistry::build(&atlas(), &decls) {
        Err(RegistryError::DuplicateBlockName(name)) => assert_eq!(name, "stone"),
        other => panic!("expected DuplicateBlockName, got {:?}", other),
    }
}

#[test]
fn empty_declaration_list_builds_an_empty_registry() {
    let decls = BlockInfoRegistry { blocks: vec![] };
    let reg = BlockRegistry::build(&atlas(), &decls).unwrap();
    assert_eq!(reg.len(), 0);
    assert_eq!(reg.id_of(&"grass".to_string()), None);
}

#[test]
fn atlas_rejects_duplicate_names_and_keeps_the_first() {
    let mut a = AtlasMap::new();
    assert!(a.insert("a.png".to_string(), rect(1)));
    assert!(!a.insert("a.png".to_string(), rect(2)));
    assert_eq!(a.lookup(&"a.png".to_string()), Some(rect(1)));
    assert_eq!(a.lookup(&"b.png".to_string()), None);
}

#[test]
fn uv_rects_stay_inside_the_atlas() {
    let r = rect(3);
    assert!(r.u_min <= r.u_max && r.u_max <= UV_ONE);
    assert!(r.v_min <= r.v_max && r.v_max <= UV_ONE);
}
