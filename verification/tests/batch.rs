use std::collections::HashMap;
use std::io::Cursor;

use image::{DynamicImage, ImageFormat, Rgb, RgbImage};
use webp_convert::batch::{summarize, BatchReport, FileOutcome};
use webp_convert::conversion::{ConversionRequest, InputRead};
use webp_convert::discovery::{discover, Entry, EntryContent};
use webp_convert::error::{Mode, PipelineError};
use webp_convert::report::ConversionResult;

fn jpeg() -> Vec<u8> {
    let image = DynamicImage::ImageRgb8(RgbImage::from_fn(40, 30, |x, y| {
        Rgb([(x * 6) as u8, (y * 8) as u8, (x * y % 256) as u8])
    }));
    let mut out = Cursor::new(Vec::new());
    image.write_to(&mut out, ImageFormat::Jpeg).unwrap();
    out.into_inner()
}

/// A directory held in memory: the bytes of each file, by path.
fn process_image(
    input_file: &str,
    files: &HashMap<String, Vec<u8>>,
    output_path: &str,
    quality: f32,
    written: &mut HashMap<String, Vec<u8>>,
) -> Result<ConversionResult, PipelineError> {
    let input = match files.get(input_file) {
        Some(bytes) => InputRead::Content {
            size_bytes: bytes.len() as u64,
            bytes: bytes.clone(),
        },
        None => InputRead::Unreadable,
    };
    let request = ConversionRequest {
        input_path: input_file.to_string(),
        output_dir: output_path.to_string(),
    };
    let job = request.decode(&input)?.prepare_encoding()?;
    let encoded = job
        .encoder()
        .encode_simple(false, quality)
        .ok()
        .map(|memory| memory.to_vec());
    let write = job.encoded(encoded)?;
    written.insert(write.output_path.clone(), write.bytes.clone());
    let measured = write.bytes.len() as u64;
    write.written(Some(measured))
}

fn process_directory(
    files: &HashMap<String, Vec<u8>>,
    listing: Option<Vec<Entry>>,
    output_path: &str,
    quality: f32,
    written: &mut HashMap<String, Vec<u8>>,
) -> Result<(BatchReport, Vec<String>), PipelineError> {
    let found = discover(listing)?;
    let mut report = BatchReport::new();
    let mut lines = Vec::new();
    for input_path in found.into_paths() {
        let outcome = process_image(&input_path, files, output_path, quality, written);
        if let Some(line) = report.record(FileOutcome {
            input_path,
            outcome,
        }) {
            lines.push(line);
        }
    }
    Ok((report, lines))
}

fn listing_of(files: &[(&str, Vec<u8>)]) -> (HashMap<String, Vec<u8>>, Vec<Entry>) {
    let mut by_path = HashMap::new();
    let mut listing = Vec::new();
    for (path, bytes) in files {
        by_path.insert(path.to_string(), bytes.clone());
        listing.push(Entry {
            path: path.to_string(),
            content: EntryContent::Bytes(bytes.clone()),
        });
    }
    (by_path, listing)
}

fn done(path: &str, original: u64, encoded: u64) -> Result<ConversionResult, PipelineError> {
    Ok(ConversionResult {
        output_path: path.to_string(),
        original_size_bytes: original,
        encoded_size_bytes: encoded,
    })
}

fn outcome(path: &str, outcome: Result<ConversionResult, PipelineError>) -> FileOutcome {
    FileOutcome {
        input_path: path.to_string(),
        outcome,
    }
}

#[test]
fn test_process_directory() {
    let directory = "test_assets";
    let output_path = "./assets";
    let quality = 70.0;
    let (files, mut listing) = listing_of(&[
        ("test_assets/test_img.jpg", jpeg()),
        ("test_assets/readme.txt", b"assets for the tests".to_vec()),
    ]);
    listing.push(Entry {
        path: format!("{}/nested", directory),
        content: EntryContent::NotAFile,
    });
    let mut written = HashMap::new();

    let result = process_directory(&files, Some(listing), output_path, quality, &mut written);

    assert!(result.is_ok())
}

#[test]
fn a_batch_converts_the_images_and_nothing_else() {
    let (files, mut listing) = listing_of(&[
        ("in/notes.txt", b"hello".to_vec()),
        ("in/a.jpg", jpeg()),
        ("in/broken.jpg", jpeg()[..40].to_vec()),
        ("in/b.jpeg", jpeg()),
    ]);
    listing.push(Entry {
        path: "in/sub".to_string(),
        content: EntryContent::NotAFile,
    });
    let mut written = HashMap::new();

    let (report, lines) =
        process_directory(&files, Some(listing), "out", 70.0, &mut written).unwrap();

    assert_eq!(report.converted.len(), 2);
    assert_eq!(report.converted[0].output_path, "out/a.webp");
    assert_eq!(report.converted[1].output_path, "out/b.webp");
    assert!(report.skipped.is_empty());
    assert!(lines.is_empty());
    let mut outputs: Vec<&String> = written.keys().collect();
    outputs.sort();
    assert_eq!(outputs, ["out/a.webp", "out/b.webp"]);
}

#[test]
fn a_file_that_fails_is_skipped_and_the_batch_goes_on() {
    let (mut files, listing) = listing_of(&[
        ("in/first.jpg", jpeg()),
        ("in/corrupted.jpg", jpeg()),
        ("in/last.jpg", jpeg()),
    ]);
    files.insert("in/corrupted.jpg".to_string(), jpeg()[..100].to_vec());
    let mut written = HashMap::new();

    let (report, lines) =
        process_directory(&files, Some(listing), "out", 70.0, &mut written).unwrap();

    assert_eq!(report.converted.len(), 2);
    assert_eq!(report.converted[0].output_path, "out/first.webp");
    assert_eq!(report.converted[1].output_path, "out/last.webp");
    assert_eq!(report.skipped.len(), 1);
    assert_eq!(report.skipped[0].input_path, "in/corrupted.jpg");
    assert_eq!(report.skipped[0].error, PipelineError::DecodeFailed);
    assert_eq!(
        lines,
        ["Error processing file: corrupted.jpg - Skipping..."]
    );
    assert!(written.contains_key("out/first.webp"));
    assert!(written.contains_key("out/last.webp"));
    assert!(!written.contains_key("out/corrupted.webp"));
    assert_eq!(written.len(), 2);
}

#[test]
fn a_batch_fails_only_if_the_directory_cannot_be_listed() {
    let files = HashMap::new();
    let mut written = HashMap::new();
    let result = process_directory(&files, None, "out", 70.0, &mut written);
    assert_eq!(result.unwrap_err(), PipelineError::DirectoryUnreadable);
    assert!(written.is_empty());
}

#[test]
fn every_recorded_file_is_converted_or_skipped() {
    let mut report = BatchReport::new();
    assert_eq!(report.record(outcome("a.jpg", done("out/a.webp", 10, 5))), None);
    assert_eq!(
        report.record(outcome("b.jpg", Err(PipelineError::InputUnreadable))),
        Some("Error processing file: b.jpg - Skipping...".to_string())
    );
    assert_eq!(
        report.record(outcome("dir/c.png", Err(PipelineError::EncodeFailed))),
        Some("Error processing file: c.png - Skipping...".to_string())
    );
    assert_eq!(
        report.record(outcome("/", Err(PipelineError::WriteFailed))),
        Some("Error processing file: default - Skipping...".to_string())
    );
    assert_eq!(report.record(outcome("d.jpg", done("out/d.webp", 7, 9))), None);
    assert_eq!(report.converted.len(), 2);
    assert_eq!(report.converted[1].encoded_size_bytes, 9);
    assert_eq!(report.skipped.len(), 3);
    assert_eq!(report.skipped[0].error, PipelineError::InputUnreadable);
    assert_eq!(report.skipped[1].input_path, "dir/c.png");
    assert_eq!(report.skipped[2].error, PipelineError::WriteFailed);
}

#[test]
fn a_summary_leaves_the_other_files_as_they_are() {
    let with_failure = vec![
        outcome("a.jpg", done("out/a.webp", 10, 5)),
        outcome("bad.jpg", Err(PipelineError::DecodeFailed)),
        outcome("c.jpg", done("out/c.webp", 30, 15)),
    ];
    let without = vec![
        outcome("a.jpg", done("out/a.webp", 10, 5)),
        outcome("c.jpg", done("out/c.webp", 30, 15)),
    ];
    let (report, lines) = summarize(with_failure);
    let (clean, no_lines) = summarize(without);
    assert_eq!(lines, ["Error processing file: bad.jpg - Skipping..."]);
    assert!(no_lines.is_empty());
    assert_eq!(report.converted.len(), clean.converted.len());
    for (left, right) in report.converted.iter().zip(clean.converted.iter()) {
        assert_eq!(left.output_path, right.output_path);
        assert_eq!(left.original_size_bytes, right.original_size_bytes);
        assert_eq!(left.encoded_size_bytes, right.encoded_size_bytes);
    }
    assert_eq!(report.skipped.len(), 1);
    assert!(clean.skipped.is_empty());
}

#[test]
fn only_a_directory_that_cannot_be_listed_ends_a_batch() {
    let per_file = [
        PipelineError::InputUnreadable,
        PipelineError::DecodeFailed,
        PipelineError::EncodeFailed,
        PipelineError::WriteFailed,
    ];
    for error in per_file {
        assert!(!error.ends_run(Mode::Batch), "{:?}", error);
        assert!(error.ends_run(Mode::SingleFile), "{:?}", error);
    }
    assert!(PipelineError::DirectoryUnreadable.ends_run(Mode::Batch));
    assert!(PipelineError::DirectoryUnreadable.ends_run(Mode::SingleFile));
}

#[test]
fn each_error_has_its_message() {
    assert_eq!(PipelineError::DirectoryUnreadable.message(), "Failed to open directory");
    assert_eq!(PipelineError::InputUnreadable.message(), "Failed to read input file");
    assert_eq!(PipelineError::DecodeFailed.message(), "Failed to decode image");
    assert_eq!(PipelineError::EncodeFailed.message(), "Failed to create encoder");
    assert_eq!(PipelineError::WriteFailed.message(), "Failed to write output file");
}
