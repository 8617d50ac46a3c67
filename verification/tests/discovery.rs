use std::io::Cursor;

use image::{DynamicImage, ImageFormat, Rgb, RgbImage};
use webp_convert::discovery::{
    decodes_as_image, discover, probe, select_images, DiscoveredFileSet, Entry, EntryContent,
    Probed,
};
use webp_convert::error::PipelineError;

fn png() -> Vec<u8> {
    let image = DynamicImage::ImageRgb8(RgbImage::from_pixel(3, 3, Rgb([10, 20, 30])));
    let mut out = Cursor::new(Vec::new());
    image.write_to(&mut out, ImageFormat::Png).unwrap();
    out.into_inner()
}

fn entry(path: &str, content: EntryContent) -> Entry {
    Entry {
        path: path.to_string(),
        content,
    }
}

#[test]
fn a_text_file_is_never_discovered() {
    let listing = vec![
        entry("dir/notes.txt", EntryContent::Bytes(b"hello".to_vec())),
        entry("dir/a.png", EntryContent::Bytes(png())),
    ];
    let found = discover(Some(listing)).unwrap();
    assert_eq!(found.len(), 1);
    assert_eq!(found.into_paths(), vec!["dir/a.png".to_string()]);
}

#[test]
fn the_content_decides_and_not_the_name() {
    let listing = vec![
        entry("dir/looks_like_a_photo.jpg", EntryContent::Bytes(b"no pixels here".to_vec())),
        entry("dir/picture.txt", EntryContent::Bytes(png())),
        entry("dir/no_extension", EntryContent::Bytes(png())),
    ];
    let found = discover(Some(listing)).unwrap();
    assert_eq!(
        found.into_paths(),
        vec!["dir/picture.txt".to_string(), "dir/no_extension".to_string()]
    );
}

#[test]
fn only_regular_files_that_were_read_are_probed() {
    let listing = vec![
        entry("dir/sub.png", EntryContent::NotAFile),
        entry("dir/locked.png", EntryContent::Unreadable),
        entry("dir/empty.png", EntryContent::Bytes(vec![])),
    ];
    let found = discover(Some(listing)).unwrap();
    assert_eq!(found.len(), 0);
    assert!(found.get(0).is_none());
}

#[test]
fn a_directory_that_cannot_be_listed_fails() {
    assert_eq!(
        discover(None).unwrap_err(),
        PipelineError::DirectoryUnreadable
    );
}

#[test]
fn an_empty_directory_has_no_images() {
    let found = discover(Some(vec![])).unwrap();
    assert_eq!(found.len(), 0);
    assert!(found.into_paths().is_empty());
}

#[test]
fn discovery_keeps_the_order_of_the_listing() {
    let names = ["dir/c.png", "dir/a.png", "dir/b.png"];
    let mut found = DiscoveredFileSet::new();
    for name in names {
        assert!(found.consider(name.to_string(), &EntryContent::Bytes(png())));
        assert!(!found.consider("dir/junk".to_string(), &EntryContent::Bytes(vec![1, 2, 3])));
        assert!(!found.consider("dir/sub".to_string(), &EntryContent::NotAFile));
    }
    assert_eq!(found.len(), 3);
    assert_eq!(found.get(0).unwrap(), "dir/c.png");
    assert_eq!(found.get(1).unwrap(), "dir/a.png");
    assert_eq!(found.get(2).unwrap(), "dir/b.png");
    assert!(found.get(3).is_none());
}

#[test]
fn an_entry_is_recorded_only_as_a_file_that_decodes() {
    let mut found = DiscoveredFileSet::new();
    assert!(!found.record("a".to_string(), false, false));
    assert!(!found.record("b".to_string(), false, true));
    assert!(!found.record("c".to_string(), true, false));
    assert!(found.record("d".to_string(), true, true));
    assert_eq!(found.into_paths(), vec!["d".to_string()]);
}

#[test]
fn only_bytes_that_were_read_are_decoded() {
    assert!(decodes_as_image(&EntryContent::Bytes(png())));
    assert!(!decodes_as_image(&EntryContent::Bytes(b"text".to_vec())));
    assert!(!decodes_as_image(&EntryContent::NotAFile));
    assert!(!decodes_as_image(&EntryContent::Unreadable));
}

#[test]
fn probing_tells_files_and_images_apart() {
    let image = probe(entry("dir/a.png", EntryContent::Bytes(png())));
    assert_eq!(image.path, "dir/a.png");
    assert!(image.is_regular_file && image.decodes);

    let text = probe(entry("dir/a.txt", EntryContent::Bytes(b"text".to_vec())));
    assert!(text.is_regular_file && !text.decodes);

    let locked = probe(entry("dir/locked.png", EntryContent::Unreadable));
    assert!(locked.is_regular_file && !locked.decodes);

    let sub = probe(entry("dir/sub", EntryContent::NotAFile));
    assert_eq!(sub.path, "dir/sub");
    assert!(!sub.is_regular_file && !sub.decodes);
}

#[test]
fn the_discovered_set_is_the_images_of_the_listing() {
    let probed = |path: &str, is_regular_file: bool, decodes: bool| Probed {
        path: path.to_string(),
        is_regular_file,
        decodes,
    };
    let found = select_images(vec![
        probed("z.png", true, true),
        probed("sub", false, false),
        probed("notes.txt", true, false),
        probed("a.jpg", true, true),
        probed("odd", false, true),
    ]);
    assert_eq!(found.into_paths(), vec!["z.png".to_string(), "a.jpg".to_string()]);
    assert_eq!(select_images(vec![]).len(), 0);
}
