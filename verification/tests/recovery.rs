use youwee::jobs::{TikTokLiveJob, TikTokLiveJobStatus};
use youwee::live::segment_file_name_for_recording;
use youwee::recovery::{
    concat_list_path_for_recording, job_owned_paths, output_name_is_safe, owned_paths_from_facts,
    recording_output_name_is_safe, FinalPathFacts, OwnedPathFacts, SegmentPathFacts,
};

const DIR: &str = "/tmp/youwee-tiktok-delete-safety-test";

fn sample_recovery_job(output_dir: &str, status: TikTokLiveJobStatus) -> TikTokLiveJob {
    let output_path = format!("{output_dir}/creator_20260710_120000.mp4");
    TikTokLiveJob {
        id: "job-recovery".to_string(),
        target_input: "@creator".to_string(),
        target_url: "https://www.tiktok.com/@creator/live".to_string(),
        username: Some("creator".to_string()),
        title: "TikTok LIVE @creator".to_string(),
        thumbnail: None,
        output_dir: output_dir.to_string(),
        output_path: Some(output_path.clone()),
        final_path: None,
        preferred_quality: Some("auto".to_string()),
        preferred_transport: Some("auto".to_string()),
        duration_seconds: None,
        cookie_mode: Some("browser".to_string()),
        cookie_browser: Some("firefox".to_string()),
        cookie_browser_profile: Some("i879pxds.default-release".to_string()),
        cookie_file_path: None,
        auto_reconnect: true,
        status,
        segment_paths: vec![format!(
            "{output_dir}/{}",
            segment_file_name_for_recording(&output_path, 1)
        )],
        refresh_count: 2,
        reconnect_count: 2,
        format_id: Some("best".to_string()),
        history_id: Some("tiktok-live:test".to_string()),
        error_message: None,
        started_at: 1,
        updated_at: 2,
        completed_at: None,
    }
}

fn parent(path: &str) -> Option<&str> {
    std::path::Path::new(path).parent().and_then(|p| p.to_str())
}

#[test]
fn recovery_delete_paths_are_limited_to_generated_job_files() {
    let mut job = sample_recovery_job(DIR, TikTokLiveJobStatus::Recoverable);
    let paths = job_owned_paths(&job).expect("generated paths are accepted");
    assert!(paths.iter().all(|path| parent(path) == Some(DIR)));

    job.segment_paths = vec![format!("{DIR}/..\\unrelated.mkv")];
    assert!(job_owned_paths(&job).is_err());
}

#[test]
fn generated_job_files_are_each_listed_once() {
    let mut job = sample_recovery_job(DIR, TikTokLiveJobStatus::Recoverable);
    job.final_path = job.segment_paths.first().cloned();
    let paths = job_owned_paths(&job).expect("generated paths are accepted");
    assert_eq!(
        paths,
        vec![
            format!("{DIR}/creator_20260710_120000.ffconcat"),
            format!("{DIR}/creator_20260710_120000.mp4"),
            format!("{DIR}/creator_20260710_120000.part-001.mkv"),
        ]
    );
}

#[test]
fn jobs_without_an_output_path_own_no_files() {
    let mut job = sample_recovery_job(DIR, TikTokLiveJobStatus::Recoverable);
    job.output_path = None;
    assert_eq!(
        job_owned_paths(&job),
        Err("TikTok Live job has no generated output path.".to_string())
    );
}

#[test]
fn outputs_outside_the_directory_or_misnamed_are_refused() {
    let mut job = sample_recovery_job(DIR, TikTokLiveJobStatus::Recoverable);
    job.output_path = Some("/elsewhere/creator_20260710_120000.mp4".to_string());
    assert_eq!(
        job_owned_paths(&job),
        Err("Refusing to remove an unrecognized TikTok Live output path.".to_string())
    );
    job.output_path = Some(format!("{DIR}/notes.txt"));
    assert_eq!(
        job_owned_paths(&job),
        Err("Refusing to remove an unrecognized TikTok Live output path.".to_string())
    );
}

#[test]
fn final_paths_must_be_generated_files() {
    let mut job = sample_recovery_job(DIR, TikTokLiveJobStatus::Recoverable);
    job.final_path = Some(format!("{DIR}/other.mp4"));
    assert_eq!(
        job_owned_paths(&job),
        Err("Refusing to remove an unrecognized TikTok Live final path.".to_string())
    );
    job.final_path = Some(format!("{DIR}/creator_20260710_120000.mkv"));
    assert!(job_owned_paths(&job).is_ok());
}

#[test]
fn recorder_output_names_end_in_date_and_time() {
    assert!(output_name_is_safe(Some("mp4"), Some("creator_20260710_120000")));
    assert!(!output_name_is_safe(Some("mkv"), Some("creator_20260710_120000")));
    assert!(!output_name_is_safe(Some("mp4"), Some("creator_2026071_120000")));
    assert!(!output_name_is_safe(Some("mp4"), Some("creator_20260710_12000a")));
    assert!(!output_name_is_safe(Some("mp4"), Some("20260710120000")));
    assert!(!output_name_is_safe(None, Some("creator_20260710_120000")));
    assert!(recording_output_name_is_safe("/videos/creator_20260710_120000.mp4"));
    assert!(!recording_output_name_is_safe("/videos/creator.mp4"));
}

#[test]
fn concat_list_sits_next_to_the_output() {
    assert_eq!(
        concat_list_path_for_recording("/videos/creator_20260710_120000.mp4"),
        "/videos/creator_20260710_120000.ffconcat"
    );
}

#[test]
fn owned_paths_follow_the_facts_given() {
    let mut job = sample_recovery_job(DIR, TikTokLiveJobStatus::Recoverable);
    job.segment_paths = vec!["a".to_string(), "b".to_string()];
    job.final_path = Some("b".to_string());
    let facts = |segment_ok: bool| OwnedPathFacts {
        output_in_dir: true,
        output_name_safe: true,
        output_stem: Some("creator".to_string()),
        concat_list_path: "list".to_string(),
        segments: vec![
            SegmentPathFacts {
                in_output_dir: true,
                file_name: Some("creator.part-001.mkv".to_string()),
                is_recoverable_output: false,
            },
            SegmentPathFacts {
                in_output_dir: segment_ok,
                file_name: None,
                is_recoverable_output: true,
            },
        ],
        final_path: Some(FinalPathFacts {
            in_output_dir: true,
            is_output: false,
            is_recoverable_output: false,
            is_segment: true,
        }),
    };
    assert_eq!(
        owned_paths_from_facts(&job, &facts(true)),
        Ok(vec![
            format!("{DIR}/creator_20260710_120000.mp4"),
            "a".to_string(),
            "b".to_string(),
            "list".to_string(),
        ])
    );
    assert_eq!(
        owned_paths_from_facts(&job, &facts(false)),
        Err("Refusing to remove an unrecognized TikTok Live segment path.".to_string())
    );
}

#[test]
fn relative_output_of_one_component_lies_in_the_empty_directory() {
    let mut job = sample_recovery_job("", TikTokLiveJobStatus::Recoverable);
    job.output_path = Some("creator_20260710_120000.mp4".to_string());
    job.segment_paths = vec!["creator_20260710_120000.part-001.mkv".to_string()];
    assert_eq!(
        job_owned_paths(&job),
        Ok(vec![
            "creator_20260710_120000.ffconcat".to_string(),
            "creator_20260710_120000.mp4".to_string(),
            "creator_20260710_120000.part-001.mkv".to_string(),
        ])
    );
}

#[test]
fn bare_file_names_are_read_alike_on_every_platform() {
    assert_eq!(
        youwee::live::recoverable_output_path_for_recording("creator_20260710_120000.mp4"),
        "creator_20260710_120000.mkv"
    );
    assert_eq!(
        concat_list_path_for_recording("creator_20260710_120000.mp4"),
        "creator_20260710_120000.ffconcat"
    );
    assert!(recording_output_name_is_safe("creator_20260710_120000.mp4"));
    assert!(!recording_output_name_is_safe("creator_20260710_120000.mkv"));
}

#[test]
fn owned_files_of_a_bare_named_job_come_in_name_order() {
    let mut job = sample_recovery_job("", TikTokLiveJobStatus::Recoverable);
    job.output_path = Some("creator_20260710_120000.mp4".to_string());
    job.segment_paths = vec![
        "creator_20260710_120000.part-002.mkv".to_string(),
        "creator_20260710_120000.part-001.mkv".to_string(),
    ];
    job.final_path = Some("creator_20260710_120000.mp4".to_string());
    let paths = job_owned_paths(&job).expect("generated paths are accepted");
    assert_eq!(
        paths,
        vec![
            "creator_20260710_120000.ffconcat".to_string(),
            "creator_20260710_120000.mp4".to_string(),
            "creator_20260710_120000.part-001.mkv".to_string(),
            "creator_20260710_120000.part-002.mkv".to_string(),
        ]
    );
}
