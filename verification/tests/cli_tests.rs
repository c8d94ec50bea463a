use archive_extractor::cli::{descend_into, extraction_target, list_file_paths, parse_path_list, ExtractTarget};

#[test]
fn list_file_entries() {
    let content = "# 游戏相关（注释行会自动跳过）\ngame.rar\r\n./mods/\n\n   \nsavegame.zip\n  ./backups/  \n  # also a comment\n#x";
    assert_eq!(
        parse_path_list(content),
        vec!["game.rar", "./mods/", "savegame.zip", "./backups/"]
    );
}

#[test]
fn list_file_edge_cases() {
    assert!(parse_path_list("").is_empty());
    assert!(parse_path_list("\n\n# only comments\n").is_empty());
    assert_eq!(parse_path_list("a.zip"), vec!["a.zip"]);
    assert_eq!(parse_path_list("a.zip\n"), vec!["a.zip"]);
    assert_eq!(parse_path_list("a b.zip\rc.zip"), vec!["a b.zip\rc.zip"]);
}

fn into(t: ExtractTarget) -> String {
    match t {
        ExtractTarget::Into(d) => d,
        ExtractTarget::Default => panic!("expected a folder"),
    }
}

#[test]
fn extraction_targets() {
    assert!(matches!(extraction_target("/d/game.zip", None, false), ExtractTarget::Default));
    assert_eq!(into(extraction_target("/d/game.zip", None, true)), "/d");
    assert_eq!(into(extraction_target("game.zip", None, true)), "");
    assert_eq!(into(extraction_target("/d/game.zip", Some("./extracted/"), false)), "./extracted/game");
    assert_eq!(into(extraction_target("/d/game.tar.gz", Some("/out"), false)), "/out/game.tar");
    assert_eq!(into(extraction_target("/d/game.zip", Some("/out"), true)), "/out");
}

#[test]
fn scan_depth() {
    assert!(!descend_into(1, 1));
    assert!(descend_into(1, 3));
    assert!(descend_into(2, 3));
    assert!(!descend_into(3, 3));
}

#[test]
fn list_file_without_paths_is_refused() {
    assert_eq!(
        list_file_paths("paths.txt", "# nothing\n\n"),
        Err("列表文件 'paths.txt' 中没有有效的路径条目".to_string())
    );
    assert_eq!(list_file_paths("paths.txt", " a.zip \n#c\nb.rar"), Ok(vec!["a.zip".to_string(), "b.rar".to_string()]));
}

use archive_extractor::cli::{plan_path, ArchiveBatch, BatchStep, PathPlan};
use archive_extractor::ExtractError;

#[test]
fn path_plans() {
    assert_eq!(plan_path(false, false, false), PathPlan::SkipMissing);
    assert_eq!(plan_path(true, true, false), PathPlan::ExtractFile);
    assert_eq!(plan_path(true, false, true), PathPlan::ScanDirectory);
    assert_eq!(plan_path(true, false, false), PathPlan::Nothing);
}

#[test]
fn batch_stops_at_the_first_failure() {
    let (_, step) = ArchiveBatch::new(0);
    assert!(matches!(step, BatchStep::NothingFound));
    let (mut batch, step) = ArchiveBatch::new(3);
    assert!(matches!(step, BatchStep::Extract(0)));
    assert!(matches!(batch.on_result(Ok(())), BatchStep::Extract(1)));
    match batch.on_result(Err(ExtractError::ExtractFailed("bad".to_string()))) {
        BatchStep::Done(Err(ExtractError::ExtractFailed(m))) => assert_eq!(m, "bad"),
        other => panic!("unexpected {:?}", other),
    }
    assert!(batch.done);
    let (mut batch, _) = ArchiveBatch::new(2);
    batch.on_result(Ok(()));
    assert!(matches!(batch.on_result(Ok(())), BatchStep::Done(Ok(()))));
}
