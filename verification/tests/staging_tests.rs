use archive_extractor::archive_helper::{
    dest_create_failure, first_free_staging, settle, staging_create_failure,
    staging_dir, staging_name_chars, staging_probe, transfer_failure, Settlement,
};
use archive_extractor::ExtractError;

#[test]
fn staging_names() {
    let name = |k| staging_name_chars(k).into_iter().collect::<String>();
    assert_eq!(name(0), ".ae_staging");
    assert_eq!(name(1), ".ae_staging_1");
    assert_eq!(name(25), ".ae_staging_25");
}

#[test]
fn staging_dir_in_a_missing_folder() {
    assert_eq!(staging_dir("/nonexistent/out"), "/nonexistent/out/.ae_staging");
}

#[test]
fn settlements() {
    assert!(matches!(settle(Ok(())), Settlement::Keep { then: Ok(()) }));
    assert!(matches!(
        settle(Err(ExtractError::PasswordRequired)),
        Settlement::Keep { then: Err(ExtractError::PasswordRequired) }
    ));
    match settle(Err(ExtractError::ExtractFailed("x".to_string()))) {
        Settlement::Discard(ExtractError::ExtractFailed(m)) => assert_eq!(m, "x"),
        other => panic!("unexpected {:?}", other),
    }
}

#[test]
fn failure_texts() {
    let text = |e| match e {
        ExtractError::ExtractFailed(m) => m,
        other => panic!("unexpected {:?}", other),
    };
    assert_eq!(text(dest_create_failure("denied")), "创建目标目录失败: denied");
    assert_eq!(text(staging_create_failure("denied")), "创建暂存目录失败: denied");
    assert_eq!(text(transfer_failure("busy")), "迁移文件时出错: busy");
}

#[test]
fn staging_probe_answers() {
    assert_eq!(staging_probe("/out", 0, false).as_deref(), Some("/out/.ae_staging"));
    assert_eq!(staging_probe("/out", 3, false).as_deref(), Some("/out/.ae_staging_3"));
    assert_eq!(staging_probe("/out", 0, true), None);
}

#[test]
fn staging_is_the_least_free_name_on_a_simulated_disk() {
    let taken = ["/out/.ae_staging", "/out/.ae_staging_1"];
    let probe = |p: String| taken.contains(&p.as_str());
    assert_eq!(first_free_staging("/out", probe), "/out/.ae_staging_2");
    let none = |_p: String| false;
    assert_eq!(first_free_staging("/out", none), "/out/.ae_staging");
}


use archive_extractor::archive_helper::{ExtractJob, JobAction, JobEvent, JobStage};
use archive_extractor::formats::ArchiveFormat;

const ZIP_HEADER: [u8; 6] = [0x50, 0x4B, 0x03, 0x04, 0x00, 0x00];

fn dir_of(a: &JobAction) -> &str {
    match a {
        JobAction::CreateDir(d) | JobAction::Transfer(d) | JobAction::RemoveDir(d) => d,
        JobAction::Unpack { staging, .. } => staging,
        other => panic!("unexpected {:?}", other),
    }
}

/// A job for an archive, past its header, with the destination created.
fn job_with_dest(dest: &str) -> ExtractJob {
    let (mut job, a) = ExtractJob::new(dest);
    assert!(matches!(a, JobAction::ReadHeader));
    let a = job.step(JobEvent::Header(ZIP_HEADER.to_vec()));
    assert!(matches!(a, JobAction::CreateDir(ref d) if d == dest));
    job
}

#[test]
fn job_that_succeeds() {
    let mut job = job_with_dest("/nonexistent/out");
    assert_eq!(job.format, Some(ArchiveFormat::Zip));
    let a = job.step(JobEvent::Succeeded);
    assert!(matches!(a, JobAction::CreateDir(_)));
    assert_eq!(dir_of(&a), "/nonexistent/out/.ae_staging");
    let a = job.step(JobEvent::Succeeded);
    assert!(matches!(a, JobAction::Unpack { format: ArchiveFormat::Zip, .. }));
    assert_eq!(dir_of(&a), "/nonexistent/out/.ae_staging");
    let a = job.step(JobEvent::Unpacked(Ok(())));
    assert!(matches!(a, JobAction::Transfer(_)));
    assert_eq!(dir_of(&a), "/nonexistent/out/.ae_staging");
    let a = job.step(JobEvent::Succeeded);
    assert!(matches!(a, JobAction::RemoveDir(_)));
    assert_eq!(dir_of(&a), "/nonexistent/out/.ae_staging");
    let a = job.step(JobEvent::Failed("busy".to_string()));
    assert!(matches!(a, JobAction::Finish(Ok(()))));
    assert_eq!(job.stage, JobStage::Finished);
}

#[test]
fn job_skips_files_that_are_no_archives() {
    let (mut job, _) = ExtractJob::new("/nonexistent/out");
    let a = job.step(JobEvent::Header(vec![0x00, 0x01, 0x02, 0x03]));
    assert!(matches!(a, JobAction::Skip { mime: None }));
    assert_eq!(job.stage, JobStage::Finished);
    assert_eq!(job.staging, None);

    let (mut job, _) = ExtractJob::new("/nonexistent/out");
    let png = vec![0x89, 0x50, 0x4E, 0x47, 0x0D, 0x0A, 0x1A, 0x0A, 0, 0, 0, 0];
    match job.step(JobEvent::Header(png)) {
        JobAction::Skip { mime: Some(m) } => assert_eq!(m, "image/png"),
        other => panic!("unexpected {:?}", other),
    }
    assert_eq!(job.stage, JobStage::Finished);
}

#[test]
fn job_recognises_each_format() {
    let (mut job, _) = ExtractJob::new("/o");
    job.step(JobEvent::Header(vec![0x37, 0x7A, 0xBC, 0xAF, 0x27, 0x1C]));
    assert_eq!(job.format, Some(ArchiveFormat::SevenZ));
    let (mut job, _) = ExtractJob::new("/o");
    job.step(JobEvent::Header(vec![0x52, 0x61, 0x72, 0x21, 0x1A, 0x07, 0x00]));
    assert_eq!(job.format, Some(ArchiveFormat::Rar));
}

#[test]
fn job_that_cannot_read_the_file() {
    let (mut job, _) = ExtractJob::new("/o");
    assert!(matches!(job.step(JobEvent::Failed("denied".to_string())), JobAction::Finish(Ok(()))));
    assert_eq!(job.stage, JobStage::Finished);
    assert_eq!(job.staging, None);
}

#[test]
fn job_that_fails_to_unpack_discards_the_staging_folder() {
    let mut job = job_with_dest("/nonexistent/out");
    job.step(JobEvent::Succeeded);
    job.step(JobEvent::Succeeded);
    let a = job.step(JobEvent::Unpacked(Err(ExtractError::ExtractFailed("bad".to_string()))));
    assert!(matches!(a, JobAction::RemoveDir(_)));
    assert_eq!(dir_of(&a), "/nonexistent/out/.ae_staging");
    match job.step(JobEvent::Succeeded) {
        JobAction::Finish(Err(ExtractError::ExtractFailed(m))) => assert_eq!(m, "bad"),
        other => panic!("unexpected {:?}", other),
    }
}

#[test]
fn job_without_password_keeps_what_was_unpacked() {
    let mut job = job_with_dest("/nonexistent/out");
    job.step(JobEvent::Succeeded);
    job.step(JobEvent::Succeeded);
    let a = job.step(JobEvent::Unpacked(Err(ExtractError::PasswordRequired)));
    assert!(matches!(a, JobAction::Transfer(_)));
    job.step(JobEvent::Succeeded);
    assert!(matches!(job.step(JobEvent::Succeeded), JobAction::Finish(Err(ExtractError::PasswordRequired))));
}

#[test]
fn job_failures_of_folders() {
    let mut job = job_with_dest("/x");
    match job.step(JobEvent::Failed("denied".to_string())) {
        JobAction::Finish(Err(ExtractError::ExtractFailed(m))) => assert_eq!(m, "创建目标目录失败: denied"),
        other => panic!("unexpected {:?}", other),
    }
    let mut job = job_with_dest("/nonexistent/y");
    job.step(JobEvent::Succeeded);
    match job.step(JobEvent::Failed("denied".to_string())) {
        JobAction::Finish(Err(ExtractError::ExtractFailed(m))) => assert_eq!(m, "创建暂存目录失败: denied"),
        other => panic!("unexpected {:?}", other),
    }
    let mut job = job_with_dest("/nonexistent/z");
    job.step(JobEvent::Succeeded);
    job.step(JobEvent::Succeeded);
    job.step(JobEvent::Unpacked(Ok(())));
    assert!(matches!(job.step(JobEvent::Failed("full".to_string())), JobAction::RemoveDir(_)));
    match job.step(JobEvent::Succeeded) {
        JobAction::Finish(Err(ExtractError::ExtractFailed(m))) => assert_eq!(m, "迁移文件时出错: full"),
        other => panic!("unexpected {:?}", other),
    }
}
