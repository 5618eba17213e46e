use std::io::Read;

use flate2::read::DeflateDecoder;
use flate2::read::GzDecoder;
use flate2::read::ZlibDecoder;
use rzopfli::Format;
use rzopfli::Suffix;
use rzopfli::job;
use rzopfli::job::JobError;
use rzopfli::job::SinkPlan;
use rzopfli::job::SourcePlan;
use rzopfli::report;
use rzopfli::sniff;

fn fixture(len: usize) -> Vec<u8> {
    let sentence = b"The quick brown fox jumps over the lazy dog, again and again. ";
    let mut data = Vec::with_capacity(len);
    while data.len() < len {
        let take = sentence.len().min(len - data.len());
        data.extend_from_slice(&sentence[..take]);
    }
    data
}

#[test]
fn round_trip_gzip() {
    let data = fixture(4096);
    let outcome = job::run_job(10, &Format::Gzip, &data).unwrap();
    assert_ne!(outcome.data, data);
    assert!(outcome.data.len() < data.len());
    let mut decoder = GzDecoder::new(outcome.data.as_slice());
    let mut decoded = Vec::new();
    decoder.read_to_end(&mut decoded).unwrap();
    assert_eq!(decoded, data);
}

#[test]
fn round_trip_zlib() {
    let data = fixture(4096);
    let outcome = job::run_job(10, &Format::Zlib, &data).unwrap();
    assert!(outcome.data.len() < data.len());
    let mut decoder = ZlibDecoder::new(outcome.data.as_slice());
    let mut decoded = Vec::new();
    decoder.read_to_end(&mut decoded).unwrap();
    assert_eq!(decoded, data);
}

#[test]
fn round_trip_deflate() {
    let data = fixture(4096);
    let outcome = job::run_job(10, &Format::Deflate, &data).unwrap();
    assert!(outcome.data.len() < data.len());
    let mut decoder = DeflateDecoder::new(outcome.data.as_slice());
    let mut decoded = Vec::new();
    decoder.read_to_end(&mut decoded).unwrap();
    assert_eq!(decoded, data);
}

#[test]
fn round_trip_empty_input() {
    let data = Vec::new();
    let outcome = job::run_job(10, &Format::Gzip, &data).unwrap();
    let mut decoder = GzDecoder::new(outcome.data.as_slice());
    let mut decoded = Vec::new();
    decoder.read_to_end(&mut decoded).unwrap();
    assert_eq!(decoded, data);
}

#[test]
fn effort_never_increases_size() {
    let data = fixture(8192);
    let len_1 = job::run_job(1, &Format::Gzip, &data).unwrap().data.len();
    let len_10 = job::run_job(10, &Format::Gzip, &data).unwrap().data.len();
    let len_50 = job::run_job(50, &Format::Gzip, &data).unwrap().data.len();
    assert!(len_10 <= len_1);
    assert!(len_50 <= len_10);
}

#[test]
fn compressed_output_carries_gzip_signature() {
    let data = fixture(1000);
    let outcome = job::run_job(5, &Format::Gzip, &data).unwrap();
    assert!(!outcome.already_compressed);
    assert!(sniff::is_already_compressed(&outcome.data));
}

#[test]
fn already_compressed_input_still_compresses() {
    let data = fixture(2048);
    let first = job::run_job(5, &Format::Gzip, &data).unwrap();
    let second = job::run_job(5, &Format::Gzip, &first.data).unwrap();
    assert!(second.already_compressed);
    let mut outer = GzDecoder::new(second.data.as_slice());
    let mut once = Vec::new();
    outer.read_to_end(&mut once).unwrap();
    let mut inner = GzDecoder::new(once.as_slice());
    let mut decoded = Vec::new();
    inner.read_to_end(&mut decoded).unwrap();
    assert_eq!(decoded, data);
}

#[test]
fn sniffer_recognizes_known_magics() {
    assert!(sniff::is_already_compressed(&vec![0x1f, 0x8b, 0x08, 0x00]));
    assert!(sniff::is_already_compressed(&b"BZh91AY".to_vec()));
    assert!(sniff::is_already_compressed(&vec![0x1f, 0x9d, 0x90]));
    assert!(sniff::is_already_compressed(&b"LZIP\x01".to_vec()));
    assert!(sniff::is_already_compressed(&vec![
        0xfd, 0x37, 0x7a, 0x58, 0x5a, 0x00, 0x00
    ]));
    assert!(sniff::is_already_compressed(&vec![0x28, 0xb5, 0x2f, 0xfd]));
}

#[test]
fn sniffer_passes_plain_data() {
    assert!(!sniff::is_already_compressed(&b"hello world".to_vec()));
    assert!(!sniff::is_already_compressed(&Vec::new()));
    assert!(!sniff::is_already_compressed(&vec![0x1f]));
    assert!(!sniff::is_already_compressed(&vec![0x1f, 0x8c]));
}

#[test]
fn scenario_small_text_file() {
    let data = fixture(1083);
    assert_eq!(data.len(), 1083);
    let outcome = job::run_job(10, &Format::Gzip, &data).unwrap();
    assert!(outcome.data.len() < 1083);
    let mut decoder = GzDecoder::new(outcome.data.as_slice());
    let mut decoded = Vec::new();
    decoder.read_to_end(&mut decoded).unwrap();
    assert_eq!(decoded, data);
    let ext = job::resolve_extension(&None, &Format::Gzip);
    assert_eq!(job::output_path("note.txt", &ext), "note.txt.gz");
    let line = report::size_report(Some(1083), Some(outcome.data.len() as u64)).unwrap();
    assert!(line.contains("Original Size: 1.06 KiB"));
    assert!(line.ends_with("% Removed"));
    assert!(!line.contains('-'));
}

#[test]
fn stdin_to_stdout_plan() {
    let source = job::plan_source(&None, false, false).unwrap();
    assert_eq!(source, SourcePlan::FromStdin);
    let sink = job::plan_sink(&source, true, false, ".gz", false).unwrap();
    assert_eq!(sink, SinkPlan::ToStdout);
    let dashed = job::plan_source(&Some("-".into()), false, false).unwrap();
    assert_eq!(dashed, SourcePlan::FromStdin);
}

#[test]
fn stdin_terminal_requires_force() {
    let err = job::plan_source(&None, true, false).unwrap_err();
    assert!(matches!(err, JobError::StdinIsTerminal));
    assert_eq!(err.message(), "standard input is a terminal");
    let source = job::plan_source(&None, true, true).unwrap();
    assert_eq!(source, SourcePlan::FromStdin);
}

#[test]
fn stdout_terminal_requires_stdout_or_force() {
    let err = job::plan_sink(&SourcePlan::FromStdin, false, false, ".gz", true).unwrap_err();
    assert!(matches!(err, JobError::StdoutIsTerminal));
    assert_eq!(err.message(), "compressed data not written to a terminal");
    let sink = job::plan_sink(&SourcePlan::FromStdin, false, true, ".gz", true).unwrap();
    assert_eq!(sink, SinkPlan::ToStdout);
}

#[test]
fn existing_destination_is_not_overwritten_without_force() {
    let source = SourcePlan::FromFile {
        path: "foo.txt".into(),
    };
    let sink = job::plan_sink(&source, false, false, ".gz", false).unwrap();
    assert_eq!(
        sink,
        SinkPlan::ToFile {
            path: "foo.txt.gz".into(),
            overwrite: false,
        }
    );
}

#[test]
fn force_allows_overwriting_the_destination() {
    let source = SourcePlan::FromFile {
        path: "foo.txt".into(),
    };
    let sink = job::plan_sink(&source, false, true, ".gz", false).unwrap();
    assert_eq!(
        sink,
        SinkPlan::ToFile {
            path: "foo.txt.gz".into(),
            overwrite: true,
        }
    );
}

#[test]
fn file_source_keeps_its_path() {
    let source = job::plan_source(&Some("foo.txt".into()), true, false).unwrap();
    assert_eq!(
        source,
        SourcePlan::FromFile {
            path: "foo.txt".into(),
        }
    );
}

#[test]
fn resolve_extension_prefers_explicit_suffix() {
    assert_eq!(
        job::resolve_extension(&Some(Suffix(".gzip".into())), &Format::Gzip),
        ".gzip"
    );
    assert_eq!(job::resolve_extension(&None, &Format::Gzip), ".gz");
    assert_eq!(job::resolve_extension(&None, &Format::Zlib), ".zlib");
    assert_eq!(job::resolve_extension(&None, &Format::Deflate), ".deflate");
}

#[test]
fn empty_suffix_only_warns() {
    assert_eq!(
        job::empty_suffix_warning(""),
        Some("the suffix is an empty string")
    );
    assert_eq!(job::empty_suffix_warning(".gz"), None);
}

#[test]
fn no_designator_means_one_stdin_job() {
    assert_eq!(job::expand_designators(None), vec![None]);
    assert_eq!(
        job::expand_designators(Some(vec!["a.txt".into(), "b.txt".into()])),
        vec![Some("a.txt".into()), Some("b.txt".into())]
    );
}

#[test]
fn removal_applies_only_to_file_sources() {
    let file = SourcePlan::FromFile {
        path: "foo.txt".into(),
    };
    assert!(job::should_remove(true, &file));
    assert!(!job::should_remove(false, &file));
    assert!(!job::should_remove(true, &SourcePlan::FromStdin));
}

#[test]
fn size_report_rounds_binary_units() {
    assert_eq!(
        report::size_report(Some(18658), Some(5633)).unwrap(),
        "Original Size: 18.22 KiB, Compressed: 5.5 KiB, Compression: 69.81% Removed"
    );
}

#[test]
fn size_report_halves_a_kibibyte() {
    assert_eq!(
        report::size_report(Some(1024), Some(512)).unwrap(),
        "Original Size: 1 KiB, Compressed: 512 B, Compression: 50.00% Removed"
    );
}

#[test]
fn size_report_signs_growth() {
    assert_eq!(
        report::size_report(Some(100), Some(150)).unwrap(),
        "Original Size: 100 B, Compressed: 150 B, Compression: -50.00% Removed"
    );
}

#[test]
fn size_report_handles_no_change() {
    assert_eq!(
        report::size_report(Some(200), Some(200)).unwrap(),
        "Original Size: 200 B, Compressed: 200 B, Compression: 0.00% Removed"
    );
}

#[test]
fn size_report_needs_both_sizes() {
    assert_eq!(report::size_report(None, Some(5)), None);
    assert_eq!(report::size_report(Some(5), None), None);
    assert_eq!(report::size_report(None, None), None);
}

#[test]
fn size_report_guards_a_zero_original() {
    assert_eq!(report::size_report(Some(0), Some(5)), None);
    assert_eq!(report::size_report(Some(0), Some(0)), None);
}
