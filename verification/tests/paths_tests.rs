use coe33_asr::paths::mods_folder;
use std::path::Path;

fn expected(exe: &str) -> Option<String> {
    Path::new(exe)
        .ancestors()
        .nth(3)
        .map(|p| p.join("Content").join("Paks").join("~mods").to_string_lossy().into_owned())
}

#[test]
fn the_mods_folder_is_under_the_third_ancestor() {
    let exe = "/mnt/c/Games/Expedition 33/Sandfall/Binaries/Win64/SandFall-Win64-Shipping.exe";
    assert_eq!(
        mods_folder(exe),
        Some(String::from("/mnt/c/Games/Expedition 33/Sandfall/Content/Paks/~mods"))
    );
    assert_eq!(mods_folder(exe), expected(exe));
}

#[test]
fn the_mods_folder_agrees_with_ancestors_on_short_paths() {
    for exe in ["a/b/c/d", "a/b/c", "a/b", "a", "", "/", "/a/b/c", "/a/b", "a//b/c/d/", "./a/b/c"] {
        assert_eq!(mods_folder(exe), expected(exe), "{:?}", exe);
    }
    assert_eq!(mods_folder("a/b"), None);
    assert_eq!(mods_folder("a/b/c"), Some(String::from("Content/Paks/~mods")));
}
