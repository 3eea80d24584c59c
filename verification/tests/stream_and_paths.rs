use pretackler::classify::{is_long_by_thresholds, should_skip, str_eq, str_eq_ci, SkipReason};
use pretackler::clock::{format_mm_ss, ts_now};
use pretackler::message::build_user_message;
use pretackler::metadata::detect_file_metadata;
use pretackler::paths::{
    build_file_summary_path, build_file_summary_path_in_output, build_output_root, extension_of,
};
use pretackler::scheduler::{
    compute_long_timeout, dispatch_all, pick_queue, prefer_long, Job, ScheduleCounters,
};
use pretackler::stream::{process_line, StreamAssembler};

fn frame(content: &str) -> String {
    let mut s = String::from("data: {\"choices\":[{\"delta\":{\"content\":\"");
    s.push_str(content);
    s.push_str("\"}}]}\n");
    s
}

#[test]
fn frame_line_yields_its_delta() {
    let line = frame("Hello").into_bytes();
    let (finished, deltas) = process_line(&line);
    assert!(!finished);
    assert_eq!(deltas, vec![b"Hello".to_vec()]);
}

#[test]
fn blank_and_non_data_lines_are_ignored() {
    let (finished, deltas) = process_line(&b"\r\n".to_vec());
    assert!(!finished);
    assert!(deltas.is_empty());
    let (finished, deltas) = process_line(&b"event: ping\n".to_vec());
    assert!(!finished);
    assert!(deltas.is_empty());
}

#[test]
fn malformed_frame_is_skipped_not_fatal() {
    let (finished, deltas) = process_line(&b"data: {not json at all\n".to_vec());
    assert!(!finished);
    assert!(deltas.is_empty());
}

#[test]
fn sentinel_line_finishes_the_stream() {
    let (finished, deltas) = process_line(&b"data: [DONE]\n".to_vec());
    assert!(finished);
    assert!(deltas.is_empty());
}

#[test]
fn frame_with_several_choices_yields_all_deltas_in_order() {
    let line = b"data: {\"choices\":[{\"delta\":{\"content\":\"a\"}},{\"delta\":{\"content\":\"b\"}}]}\n".to_vec();
    let (finished, deltas) = process_line(&line);
    assert!(!finished);
    assert_eq!(deltas, vec![b"a".to_vec(), b"b".to_vec()]);
}

#[test]
fn assembler_joins_lines_across_chunk_boundaries() {
    let mut scanner = StreamAssembler::new();
    let whole = frame("Hel");
    let (first, second) = whole.split_at(20);
    let deltas = scanner.append_chunk(&first.as_bytes().to_vec());
    assert!(deltas.is_empty());
    assert!(!scanner.is_done());
    let mut rest = second.as_bytes().to_vec();
    rest.extend_from_slice(frame("lo").as_bytes());
    let deltas = scanner.append_chunk(&rest);
    assert_eq!(deltas, vec![b"Hel".to_vec(), b"lo".to_vec()]);
    assert!(!scanner.is_done());
    let deltas = scanner.append_chunk(&b"data: [DONE]\n".to_vec());
    assert!(deltas.is_empty());
    assert!(scanner.is_done());
}

#[test]
fn assembler_processes_unterminated_tail_at_end_of_input() {
    let mut scanner = StreamAssembler::new();
    let mut line = frame("tail");
    line.pop();  // drop the newline: the stream ends mid-line
    let deltas = scanner.append_chunk(&line.into_bytes());
    assert!(deltas.is_empty());
    let deltas = scanner.finish_input();
    assert_eq!(deltas, vec![b"tail".to_vec()]);
}

#[test]
fn case_insensitive_and_exact_string_compare() {
    assert!(str_eq_ci("IDLE", "idle"));
    assert!(str_eq_ci("Md", "mD"));
    assert!(!str_eq_ci("md", "markdown"));
    assert!(str_eq("a/b.txt", "a/b.txt"));
    assert!(!str_eq("a", "b"));
}

#[test]
fn skip_by_extension_ignores_case_and_dots() {
    let exts = vec![String::from(" .PNG"), String::from("jpg")];
    let png = String::from("png");
    let r = should_skip(Some(&png), None, &exts, None);
    assert_eq!(r, Some(SkipReason::MatchedExtension));
    let rs = String::from("rs");
    assert_eq!(should_skip(Some(&rs), None, &exts, None), None);
    assert_eq!(should_skip(None, None, &exts, None), None);
}

#[test]
fn skip_by_size_over_the_megabyte_ceiling() {
    let exts: Vec<String> = Vec::new();
    assert_eq!(
        should_skip(None, Some(2 * 1024 * 1024 + 1), &exts, Some(2)),
        Some(SkipReason::TooLarge)
    );
    assert_eq!(should_skip(None, Some(2 * 1024 * 1024), &exts, Some(2)), None);
    assert_eq!(should_skip(None, None, &exts, Some(2)), None);
}

#[test]
fn long_channel_routing_by_bytes_and_lines() {
    // at the byte threshold: long, content not even read
    assert!(is_long_by_thresholds(512 * 1024, &Vec::new(), 512 * 1024, 4000));
    // under the byte threshold with few lines: normal
    let data = b"one\ntwo\nthree\n".to_vec();
    assert!(!is_long_by_thresholds(14, &data, 512 * 1024, 4000));
    // line threshold met: newlines + 1 >= threshold
    assert!(is_long_by_thresholds(14, &data, 512 * 1024, 4));
    // a zero line threshold disables line counting
    assert!(!is_long_by_thresholds(14, &data, 512 * 1024, 0));
}

#[test]
fn summary_path_beside_the_input() {
    assert_eq!(
        build_file_summary_path("dir/sub/file.txt", "v1").unwrap(),
        "dir/sub/file.txt.summary.v1.md"
    );
    assert_eq!(build_file_summary_path("file", "v2").unwrap(), "file.summary.v2.md");
    assert_eq!(build_file_summary_path("dir/", "v1"), None);
}

#[test]
fn summary_path_inside_the_output_root() {
    assert_eq!(
        build_file_summary_path_in_output("out.summaries.v1", "a/b.rs", "v1").unwrap(),
        "out.summaries.v1/a/b.rs.summary.v1.md"
    );
    assert_eq!(
        build_file_summary_path_in_output("root/", "b.rs", "v1").unwrap(),
        "root/b.rs.summary.v1.md"
    );
    assert_eq!(build_file_summary_path_in_output("", "b.rs", "v1").unwrap(), "b.rs.summary.v1.md");
}

#[test]
fn output_root_beside_the_input_directory() {
    assert_eq!(build_output_root("work/project", "v3").unwrap(), "work/project.summaries.v3");
    assert_eq!(build_output_root("project", "v1").unwrap(), "project.summaries.v1");
    assert_eq!(build_output_root("work/", "v1"), None);
}

#[test]
fn extensions_of_paths() {
    assert_eq!(extension_of("a/b.txt").unwrap(), "txt");
    assert_eq!(extension_of("a.tar.gz").unwrap(), "gz");
    assert_eq!(extension_of("dir.d/noext"), None);
    assert_eq!(extension_of(".gitignore"), None);
}

#[test]
fn language_labels_from_the_table() {
    assert_eq!(detect_file_metadata("src/main.rs").language, "Rust");
    assert_eq!(detect_file_metadata("NOTES.MD").language, "Markdown");
    assert_eq!(detect_file_metadata("x.kts").language, "Kotlin");
    assert_eq!(detect_file_metadata("noext").language, "Unknown");
}

#[test]
fn language_label_from_the_mime_fallback() {
    // `log` is not in the table; the MIME database knows it as text/plain
    assert_eq!(detect_file_metadata("server.log").language, "Plain text");
    assert_eq!(detect_file_metadata("x.zzznope").language, "Unknown");
}

#[test]
fn user_message_carries_the_base64_payload() {
    let msg = build_user_message("hi.txt", "Plain text", &b"hello".to_vec());
    assert!(msg.contains("aGVsbG8="));
    assert!(msg.contains("hi.txt"));
    assert!(msg.contains("Plain text"));
}

#[test]
fn user_message_for_an_empty_file() {
    let msg = build_user_message("empty.rs", "Rust", &Vec::new());
    assert_eq!(
        msg,
        "File `empty.rs` currently holds 0 bytes.\nLanguage of the file: Rust\nFollow the empty-file output rules strictly:\nFile name: empty.rs\nLanguage of the file: Rust\nPurpose of the file: the file is empty, so no purpose can be read from it.\n"
    );
}

#[test]
fn timestamps_are_minutes_and_seconds() {
    assert_eq!(format_mm_ss(125), "02:05");
    assert_eq!(format_mm_ss(0), "00:00");
    assert_eq!(format_mm_ss(3599), "59:59");
    assert_eq!(format_mm_ss(3600), "00:00");
    assert_eq!(ts_now().len(), 5);
}

fn job(dest: &str, long: bool) -> Job {
    Job {
        source: String::from(dest),
        dest: String::from(dest),
        request_timeout_secs: 45,
        idle_timeout_secs: 30,
        long,
    }
}

#[test]
fn preference_alternates_and_never_starves() {
    assert!(prefer_long(0));
    assert!(!prefer_long(1));
    assert_eq!(pick_queue(true, 3, 1), Some(true));
    assert_eq!(pick_queue(false, 3, 1), Some(false));
    assert_eq!(pick_queue(true, 3, 0), Some(false));
    assert_eq!(pick_queue(false, 0, 1), Some(true));
    assert_eq!(pick_queue(true, 0, 0), None);
}

#[test]
fn dispatch_drains_both_classes() {
    let normal = vec![job("n1", false), job("n2", false), job("n3", false)];
    let long = vec![job("l1", true)];
    let order = dispatch_all(normal, long, 0);
    let names: Vec<&str> = order.iter().map(|j| j.dest.as_str()).collect();
    assert_eq!(names, vec!["l1", "n1", "n2", "n3"]);
}

#[test]
fn dispatch_interleaves_when_both_classes_hold_work() {
    let normal = vec![job("n1", false), job("n2", false)];
    let long = vec![job("l1", true), job("l2", true)];
    let order = dispatch_all(normal, long, 0);
    let names: Vec<&str> = order.iter().map(|j| j.dest.as_str()).collect();
    assert_eq!(names, vec!["l1", "n1", "l2", "n2"]);
}

#[test]
fn long_timeouts_scale_but_never_shrink() {
    // 45 s at a 5.00 multiplier
    assert_eq!(compute_long_timeout(45, None, 500), 225);
    // an explicit override wins, zero meaning unbounded
    assert_eq!(compute_long_timeout(45, Some(0), 500), 0);
    assert_eq!(compute_long_timeout(45, Some(600), 500), 600);
    // a multiplier under one never shrinks the base
    assert_eq!(compute_long_timeout(45, None, 50), 45);
    // a zero multiplier counts as one
    assert_eq!(compute_long_timeout(45, None, 0), 45);
}

#[test]
fn counters_track_starts_and_completions() {
    let mut c = ScheduleCounters::new();
    assert_eq!(c.record_started(), 1);
    assert_eq!(c.record_started(), 2);
    assert_eq!(c.record_completed(), 1);
    assert_eq!(c.record_completed(), 2);
    assert_eq!(c.started, 2);
    assert_eq!(c.completed, 2);
}
