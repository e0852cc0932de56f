use kb_engine::kb_assets::{
    invalid_model_handle, resolve_path, KbAssetManager, KbAssetMappings, KbByteFileHandle,
    KbLoadRequest, KbModelHandle, KbShaderHandle, KbTextureHandle, INVALID_HANDLE_INDEX,
    LAST_HANDLE_INDEX,
};

fn read_path(request: KbLoadRequest) -> String {
    match request {
        KbLoadRequest::Read(path) => path,
        KbLoadRequest::Loaded(index) => panic!("already loaded as {index}"),
    }
}

#[test]
fn invalid_handles() {
    assert_eq!(INVALID_HANDLE_INDEX, u32::MAX);
    assert!(!KbTextureHandle::make_invalid().is_valid());
    assert!(!KbShaderHandle::make_invalid().is_valid());
    assert!(!KbByteFileHandle::make_invalid().is_valid());
    assert!(!KbModelHandle::make_invalid().is_valid());
    assert_eq!(invalid_model_handle().index, u32::MAX);
    assert!(KbTextureHandle { index: 0 }.is_valid());
    assert!(KbModelHandle { index: u32::MAX - 1 }.is_valid());
    assert_eq!(KbShaderHandle { index: 3 }, KbShaderHandle { index: 3 });
    assert_ne!(KbByteFileHandle { index: 3 }, KbByteFileHandle { index: 4 });
}

#[test]
fn handles_count_up_from_zero() {
    let mut table: KbAssetMappings<&'static str> = KbAssetMappings::new();
    assert_eq!(table.len(), 0);
    assert_eq!(table.add("a"), 0);
    assert_eq!(table.add("b"), 1);
    assert_eq!(table.add_named("c.png", "c"), 2);
    assert_eq!(table.take_index(), 3);
    assert_eq!(table.add("e"), 4);
    assert_eq!(table.len(), 4);
    assert_eq!(table.get(0), Some(&"a"));
    assert_eq!(table.get(2), Some(&"c"));
    assert_eq!(table.get(3), None);
    assert_eq!(table.get(4), Some(&"e"));
    assert!(table.contains(1));
    assert!(!table.contains(3));
    assert!(!table.contains(u32::MAX));
}

#[test]
fn names_are_remembered() {
    let mut table: KbAssetMappings<u8> = KbAssetMappings::new();
    assert_eq!(table.find("a.png"), None);
    assert_eq!(table.load("a.png", 10), 0);
    assert_eq!(table.load("b.png", 20), 1);
    assert_eq!(table.find("a.png"), Some(0));
    assert_eq!(table.find("b.png"), Some(1));
    assert_eq!(table.find("c.png"), None);
    assert_eq!(table.load("a.png", 99), 0);
    assert_eq!(table.get(0), Some(&10));
    assert_eq!(table.len(), 2);
    assert_eq!(table.load("c.png", 30), 2);
}

#[test]
fn replace_and_remove() {
    let mut table: KbAssetMappings<u8> = KbAssetMappings::new();
    let a = table.add(1);
    let b = table.add(2);
    table.replace(a, 7);
    assert_eq!(table.get(a), Some(&7));
    assert_eq!(table.get(b), Some(&2));
    table.remove(a);
    assert_eq!(table.get(a), None);
    assert_eq!(table.len(), 1);
    table.remove(a);
    assert_eq!(table.len(), 1);
    assert_eq!(table.add(3), 2);
}

#[test]
fn indices_lists_every_handle_once() {
    let mut table: KbAssetMappings<u8> = KbAssetMappings::new();
    assert!(table.indices().is_empty());
    for value in 0..5 {
        table.add(value);
    }
    table.remove(2);
    let mut indices = table.indices();
    indices.sort();
    assert_eq!(indices, vec![0, 1, 3, 4]);
}

#[test]
fn paths_with_a_drive_letter_are_kept() {
    assert_eq!(resolve_path("C:/engine_assets/a.png", "/cwd", true, true), "C:/engine_assets/a.png");
    assert_eq!(resolve_path("d:", "/cwd", false, false), "d:");
    assert_eq!(resolve_path("x:game_assets", "/cwd", false, true), "x:game_assets");
}

#[test]
fn engine_assets_are_found_from_the_working_directory() {
    assert_eq!(
        resolve_path("engine_assets/a.png", "/home/me", true, false),
        "/home/me/./engine_assets/a.png"
    );
    assert_eq!(
        resolve_path("engine_assets/a.png", "/home/me", false, false),
        "/home/me/../../engine_assets/a.png"
    );
    assert_eq!(
        resolve_path("./my/engine_assets/shaders/s.wgsl", "", false, true),
        "/../.././my/engine_assets/shaders/s.wgsl"
    );
    assert_eq!(
        resolve_path("game_assets/engine_assets.png", "w", true, true),
        "w/./game_assets/engine_assets.png"
    );
}

#[test]
fn game_assets_are_found_for_textures_only() {
    assert_eq!(resolve_path("game_assets/a.png", "/cwd", false, true), "/cwd/./game_assets/a.png");
    assert_eq!(resolve_path("game_assets/a.png", "/cwd", true, true), "/cwd/./game_assets/a.png");
    assert_eq!(resolve_path("game_assets/a.png", "/cwd", false, false), "game_assets/a.png");
    assert_eq!(resolve_path("x/game_assets", "/cwd", false, true), "/cwd/./x/game_assets");
}

#[test]
fn other_paths_are_kept() {
    assert_eq!(resolve_path("assets/a.png", "/cwd", true, true), "assets/a.png");
    assert_eq!(resolve_path("engine_asset/a.png", "/cwd", true, true), "engine_asset/a.png");
    assert_eq!(resolve_path("ngine_assets", "/cwd", true, true), "ngine_assets");
    assert_eq!(resolve_path("ab", "/cwd", true, true), "ab");
    assert_eq!(resolve_path("é:", "/cwd", true, true), "é:");
    assert_eq!(resolve_path("éngine_assets", "/cwd", true, true), "éngine_assets");
    assert_eq!(resolve_path("éé/engine_assets", "/c", true, true), "/c/./éé/engine_assets");
}

#[test]
fn byte_files_are_loaded_once() {
    let mut manager = KbAssetManager::new();
    let request = manager.byte_file_request("engine_assets/font.ttf", "/cwd", false);
    assert_eq!(read_path(request), "/cwd/../../engine_assets/font.ttf");
    let font = manager.load_byte_file("engine_assets/font.ttf", vec![1, 2, 3]);
    assert_eq!(font, KbByteFileHandle { index: 0 });
    assert!(font.is_valid());
    assert_eq!(manager.get_byte_file(&font), &vec![1, 2, 3]);

    let request = manager.byte_file_request("engine_assets/font.ttf", "/cwd", false);
    assert!(matches!(request, KbLoadRequest::Loaded(0)));
    let again = manager.load_byte_file("engine_assets/font.ttf", vec![9]);
    assert_eq!(again, font);
    assert_eq!(manager.get_byte_file(&font), &vec![1, 2, 3]);

    let other = manager.load_byte_file("game_assets/level.bin", vec![]);
    assert_eq!(other.index, 1);
    assert_eq!(manager.get_byte_file(&other), &Vec::<u8>::new());
    assert_eq!(manager.get_byte_file(&font), &vec![1, 2, 3]);
}

#[test]
fn each_kind_of_asset_resolves_its_own_paths() {
    let manager = KbAssetManager::new();
    assert_eq!(
        read_path(manager.texture_request("game_assets/a.png", "/cwd", false)),
        "/cwd/./game_assets/a.png"
    );
    assert_eq!(
        read_path(manager.shader_request("game_assets/a.wgsl", "/cwd", false)),
        "game_assets/a.wgsl"
    );
    assert_eq!(
        read_path(manager.byte_file_request("game_assets/a.bin", "/cwd", false)),
        "game_assets/a.bin"
    );
    assert_eq!(
        read_path(manager.texture_request("engine_assets/a.png", "/cwd", true)),
        "/cwd/./engine_assets/a.png"
    );
    assert_eq!(
        read_path(manager.shader_request("engine_assets/a.wgsl", "/cwd", true)),
        "/cwd/./engine_assets/a.wgsl"
    );
    assert_eq!(
        read_path(manager.shader_request("engine_assets/a.wgsl", "/cwd", false)),
        "/cwd/../../engine_assets/a.wgsl"
    );
}

#[test]
fn loaded_byte_files_are_found() {
    let mut manager = KbAssetManager::new();
    assert_eq!(manager.find_byte_file("a.bin"), None);
    assert_eq!(manager.find_texture("a.bin"), None);
    assert_eq!(manager.find_shader("a.bin"), None);
    assert!(!manager.has_byte_file(&KbByteFileHandle { index: 0 }));
    let a = manager.load_byte_file("a.bin", vec![1]);
    let b = manager.load_byte_file("b.bin", vec![2]);
    assert_eq!(manager.find_byte_file("a.bin"), Some(a));
    assert_eq!(manager.find_byte_file("b.bin"), Some(b));
    assert_eq!(manager.find_byte_file("c.bin"), None);
    assert!(manager.has_byte_file(&a));
    assert!(manager.has_byte_file(&b));
    assert!(!manager.has_byte_file(&KbByteFileHandle { index: 2 }));
    assert!(!manager.has_byte_file(&KbByteFileHandle::make_invalid()));
    // the kinds of asset do not share their tables
    assert_eq!(manager.find_texture("a.bin"), None);
    assert_eq!(manager.find_shader("a.bin"), None);
    assert!(!manager.has_texture(&KbTextureHandle { index: 0 }));
    assert!(!manager.has_shader(&KbShaderHandle { index: 0 }));
}

#[test]
fn a_table_with_few_assets_has_room() {
    assert_eq!(LAST_HANDLE_INDEX, u32::MAX - 1);
    let mut table: KbAssetMappings<u8> = KbAssetMappings::new();
    assert!(table.can_add());
    for value in 0..20 {
        assert_eq!(table.add(value), value as u32);
        assert!(table.can_add());
    }
    table.remove(3);
    assert!(table.can_add());
    assert_eq!(table.add(0), 20);
}

#[test]
fn a_new_name_needs_two_characters() {
    let mut manager = KbAssetManager::new();
    for name in ["", "a", "é"] {
        assert!(!manager.byte_file_is_loadable(name), "{name}");
        assert!(!manager.texture_is_loadable(name), "{name}");
        assert!(!manager.shader_is_loadable(name), "{name}");
    }
    for name in ["ab", "éé", "a.bin", "C:", "engine_assets/a.bin"] {
        assert!(manager.byte_file_is_loadable(name), "{name}");
        assert!(manager.texture_is_loadable(name), "{name}");
        assert!(manager.shader_is_loadable(name), "{name}");
    }
    let handle = manager.load_byte_file("ab", vec![7]);
    assert!(manager.byte_file_is_loadable("ab"));
    assert_eq!(manager.load_byte_file("ab", vec![8]), handle);
    assert!(!manager.byte_file_is_loadable("a"));
}

#[test]
fn loading_a_known_name_uses_up_no_handle() {
    let mut manager = KbAssetManager::new();
    let a = manager.load_byte_file("a.bin", vec![1]);
    for _ in 0..5 {
        assert_eq!(manager.load_byte_file("a.bin", vec![9, 9]), a);
    }
    let b = manager.load_byte_file("b.bin", vec![2]);
    assert_eq!((a.index, b.index), (0, 1));
    assert_eq!(manager.load_byte_file("a.bin", vec![]), a);
    let c = manager.load_byte_file("c.bin", vec![3]);
    assert_eq!(c.index, 2);
    assert_eq!(manager.get_byte_file(&a), &vec![1]);
    assert_eq!(manager.get_byte_file(&b), &vec![2]);
    assert_eq!(manager.get_byte_file(&c), &vec![3]);
}
