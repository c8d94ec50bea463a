use archive_extractor::path_utils::{
    conflict_path_candidate, conflict_probe, default_dest, default_dest_candidate, dest_probe,
    first_free_conflict_path, first_free_dest, resolve_conflict_path,
};

/// A simulated disk: the regular files and the directories it holds. The probe answers
/// whether something exists at a path and whether it is a directory.
fn disk(files: &'static [&'static str], dirs: &'static [&'static str]) -> impl Fn(String) -> (bool, bool) {
    move |p: String| {
        let is_dir = dirs.contains(&p.as_str());
        (is_dir || files.contains(&p.as_str()), is_dir)
    }
}

#[test]
fn test_default_dest_basic() {
    assert_eq!(default_dest("/home/user/archive.zip"), "/home/user/archive");
}

#[test]
fn test_default_dest_no_extension() {
    assert_eq!(default_dest("archive"), "archive");
}

#[test]
fn test_default_dest_multi_extension() {
    assert_eq!(default_dest("game.rar.bak"), "game.rar");
}

#[test]
fn test_default_dest_windows_path() {
    assert_eq!(default_dest("C:\\Downloads\\file.7z"), "C:\\Downloads\\file");
}

#[test]
fn test_resolve_conflict_path_no_conflict() {
    let path = "C:\\nonexistent\\file.txt";
    assert_eq!(resolve_conflict_path(path), path);
}

#[test]
fn default_dest_candidates_in_order() {
    let p = "/tmp/x/特典";
    assert_eq!(default_dest_candidate(p, 0), "/tmp/x/特典");
    assert_eq!(default_dest_candidate(p, 1), "/tmp/x/特典_");
    assert_eq!(default_dest_candidate(p, 2), "/tmp/x/特典_2");
    assert_eq!(default_dest_candidate(p, 10), "/tmp/x/特典_10");
    assert_eq!(default_dest_candidate(p, 4294967295), "/tmp/x/特典_4294967295");
}

#[test]
fn default_dest_of_hidden_and_trailing_dot_names() {
    assert_eq!(default_dest_candidate("/a/.gitignore", 0), "/a/.gitignore");
    assert_eq!(default_dest_candidate("/a/..foo", 0), "/a/.");
    assert_eq!(default_dest_candidate("/a/b.", 0), "/a/b");
    assert_eq!(default_dest_candidate("dir/game.tar.gz", 3), "dir/game.tar_3");
}

#[test]
fn conflict_candidates_in_order() {
    let p = "/d/archive.tar.gz";
    assert_eq!(conflict_path_candidate(p, 1), "/d/archive.tar_1.gz");
    assert_eq!(conflict_path_candidate(p, 12), "/d/archive.tar_12.gz");
    assert_eq!(conflict_path_candidate("/d/.gitignore", 1), "/d/.gitignore_1");
    assert_eq!(conflict_path_candidate("/d/README", 7), "/d/README_7");
    assert_eq!(conflict_path_candidate("note.md", 2), "note_2.md");
}

#[test]
fn existing_directories_are_kept() {
    assert_eq!(resolve_conflict_path("/"), "/");
    assert_eq!(default_dest("/tmp.zip"), "/tmp");
}

#[test]
fn probes_answer_from_the_file_system_answers() {
    assert_eq!(conflict_probe("/d/file.txt", 0, false, false).as_deref(), Some("/d/file.txt"));
    assert_eq!(conflict_probe("/d/file.txt", 0, true, true).as_deref(), Some("/d/file.txt"));
    assert_eq!(conflict_probe("/d/file.txt", 2, false, false).as_deref(), Some("/d/file_2.txt"));
    assert_eq!(conflict_probe("/d/file.txt", 1, true, false), None);
    assert_eq!(dest_probe("/d/a.zip", 0, false, false).as_deref(), Some("/d/a"));
    assert_eq!(dest_probe("/d/a.zip", 1, true, true).as_deref(), Some("/d/a_"));
    assert_eq!(dest_probe("/d/a.zip", 0, true, false), None);
}

#[test]
fn conflict_on_simulated_disk_missing_path_is_kept() {
    let probe = disk(&[], &[]);
    assert_eq!(first_free_conflict_path("/d/file.txt", probe), "/d/file.txt");
}

#[test]
fn conflict_on_simulated_disk_with_extension() {
    let probe = disk(&["/d/file.txt"], &["/d"]);
    assert_eq!(first_free_conflict_path("/d/file.txt", probe), "/d/file_1.txt");
}

#[test]
fn conflict_on_simulated_disk_without_extension() {
    let probe = disk(&["/d/README"], &["/d"]);
    assert_eq!(first_free_conflict_path("/d/README", probe), "/d/README_1");
}

#[test]
fn conflict_on_simulated_disk_multiple() {
    let probe = disk(&["/d/data.txt", "/d/data_1.txt"], &["/d"]);
    assert_eq!(first_free_conflict_path("/d/data.txt", probe), "/d/data_2.txt");
}

#[test]
fn conflict_on_simulated_disk_double_extension() {
    let probe = disk(&["/d/archive.tar.gz"], &["/d"]);
    assert_eq!(first_free_conflict_path("/d/archive.tar.gz", probe), "/d/archive.tar_1.gz");
}

#[test]
fn conflict_on_simulated_disk_directory_is_kept() {
    let probe = disk(&[], &["/d", "/d/subdir"]);
    assert_eq!(first_free_conflict_path("/d/subdir", probe), "/d/subdir");
}

#[test]
fn conflict_on_simulated_disk_hidden_file() {
    let probe = disk(&["/d/.gitignore"], &["/d"]);
    assert_eq!(first_free_conflict_path("/d/.gitignore", probe), "/d/.gitignore_1");
}

#[test]
fn conflict_on_simulated_disk_takes_the_least_free_number() {
    let probe = disk(&["/d/n.md", "/d/n_1.md", "/d/n_3.md"], &["/d"]);
    assert_eq!(first_free_conflict_path("/d/n.md", probe), "/d/n_2.md");
}

#[test]
fn dest_on_simulated_disk_first_candidate_when_free() {
    let probe = disk(&["/d/a.zip"], &["/d"]);
    assert_eq!(first_free_dest("/d/a.zip", probe), "/d/a");
    let probe = disk(&["/d/a.zip"], &["/d", "/d/a"]);
    assert_eq!(first_free_dest("/d/a.zip", probe), "/d/a");
}

#[test]
fn dest_on_simulated_disk_file_without_extension() {
    let probe = disk(&["/x/特典"], &["/x"]);
    assert_eq!(first_free_dest("/x/特典", probe), "/x/特典_");
}

#[test]
fn dest_on_simulated_disk_second_collision() {
    let probe = disk(&["/x/archive", "/x/archive_"], &["/x"]);
    assert_eq!(first_free_dest("/x/archive", probe), "/x/archive_2");
    let probe = disk(&["/x/archive", "/x/archive_", "/x/archive_2"], &["/x"]);
    assert_eq!(first_free_dest("/x/archive", probe), "/x/archive_3");
}
