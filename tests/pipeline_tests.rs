use image_batch::archive::{compress_images, make_entry_name};
use image_batch::batch::{gather_results, transform_batch};
use image_batch::error::PipelineError;
use image_batch::pipeline::{
    item_name, resize_and_pack, response_status, run_pipeline, settle_outcome,
};
use image_batch::raster::{
    apply_transform, decode, encode, transform_item, Layout, Shape, Transform,
};
use std::io::{Cursor, Read};
use zip::ZipArchive;

fn png_rgb(width: u32, height: u32) -> Vec<u8> {
    let mut out = Vec::new();
    image::DynamicImage::ImageRgb8(image::RgbImage::new(width, height))
        .write_to(&mut Cursor::new(&mut out), image::ImageFormat::Png)
        .unwrap();
    out
}

fn png_luma(width: u32, height: u32) -> Vec<u8> {
    let mut out = Vec::new();
    image::DynamicImage::ImageLuma8(image::GrayImage::new(width, height))
        .write_to(&mut Cursor::new(&mut out), image::ImageFormat::Png)
        .unwrap();
    out
}

fn entry_names(zip_bytes: Vec<u8>) -> Vec<String> {
    let mut archive = ZipArchive::new(Cursor::new(zip_bytes)).unwrap();
    let mut names = Vec::new();
    for i in 0..archive.len() {
        names.push(archive.by_index(i).unwrap().name().to_string());
    }
    names
}

#[test]
fn resize_stretches_any_shape_to_the_box() {
    for (w, h) in [(1, 1), (7, 3), (3, 7), (400, 500), (301, 299)] {
        let out = transform_item("x.png".to_string(), png_rgb(w, h), Transform::Resize).unwrap();
        let img = image::load_from_memory(&out.1).unwrap();
        assert_eq!((img.width(), img.height()), (300, 300));
    }
}

#[test]
fn resize_single_channel_image() {
    let out = transform_item("g.png".to_string(), png_luma(5, 9), Transform::Resize).unwrap();
    let img = image::load_from_memory(&out.1).unwrap();
    assert_eq!((img.width(), img.height()), (300, 300));
    assert_eq!(img.color(), image::ColorType::L8);
}

#[test]
fn grayscale_keeps_dimensions_and_gives_one_channel() {
    let out = transform_item("c.png".to_string(), png_rgb(12, 5), Transform::Grayscale).unwrap();
    let img = image::load_from_memory(&out.1).unwrap();
    assert_eq!((img.width(), img.height()), (12, 5));
    assert_eq!(img.color(), image::ColorType::L8);
}

#[test]
fn decoded_picture_reports_its_size() {
    let p = decode(&png_rgb(4, 6)).unwrap();
    assert_eq!((p.width(), p.height()), (4, 6));
    let r = apply_transform(&p, Transform::Resize);
    assert_eq!((r.width(), r.height()), (300, 300));
    let g = apply_transform(&p, Transform::Grayscale);
    assert_eq!((g.width(), g.height()), (4, 6));
}

#[test]
fn encode_gives_png_of_the_picture() {
    let p = decode(&png_rgb(8, 2)).unwrap();
    let bytes = encode(&p).unwrap();
    assert_eq!(image::guess_format(&bytes).unwrap(), image::ImageFormat::Png);
    let back = image::load_from_memory(&bytes).unwrap();
    assert_eq!((back.width(), back.height()), (8, 2));
}

#[test]
fn undecodable_bytes_give_decode_failure() {
    assert_eq!(decode(b"not an image").err(), Some(PipelineError::DecodeFailure));
    let r = transform_item("bad.png".to_string(), vec![1, 2, 3], Transform::Resize);
    assert_eq!(r.err(), Some(PipelineError::DecodeFailure));
}

#[test]
fn batch_keeps_order_and_names() {
    let names = ["b.png", "a.png", "c.png", "a.png"];
    let items: Vec<(String, Vec<u8>)> = names
        .iter()
        .enumerate()
        .map(|(i, n)| (n.to_string(), png_rgb(i as u32 + 1, 2)))
        .collect();
    let out = transform_batch(items, Transform::Grayscale).unwrap();
    assert_eq!(out.len(), 4);
    for (i, (n, bytes)) in out.iter().enumerate() {
        assert_eq!(n, names[i]);
        let img = image::load_from_memory(bytes).unwrap();
        assert_eq!(img.width(), i as u32 + 1);
    }
}

#[test]
fn pipeline_archive_has_one_entry_per_item_in_order() {
    let items = vec![
        ("z.png".to_string(), png_rgb(2, 2)),
        ("m.png".to_string(), png_rgb(3, 1)),
        ("a.png".to_string(), png_luma(1, 4)),
    ];
    let zip_bytes = resize_and_pack(items).unwrap();
    assert_eq!(
        entry_names(zip_bytes.clone()),
        vec!["processed_z.png", "processed_m.png", "processed_a.png"]
    );
    let mut archive = ZipArchive::new(Cursor::new(zip_bytes)).unwrap();
    for i in 0..3 {
        let mut f = archive.by_index(i).unwrap();
        assert_eq!(f.compression(), zip::CompressionMethod::Stored);
        let mut content = Vec::new();
        f.read_to_end(&mut content).unwrap();
        let img = image::load_from_memory(&content).unwrap();
        assert_eq!((img.width(), img.height()), (300, 300));
    }
}

#[test]
fn empty_batch_gives_empty_archive_and_status_ok() {
    let outcome = settle_outcome(Some(resize_and_pack(Vec::new())));
    assert_eq!(response_status(&outcome), 200);
    let archive = ZipArchive::new(Cursor::new(outcome.unwrap())).unwrap();
    assert_eq!(archive.len(), 0);
    assert_eq!(transform_batch(Vec::new(), Transform::Resize).unwrap().len(), 0);
}

#[test]
fn special_names_are_kept_verbatim() {
    assert_eq!(make_entry_name("ảnh đẹp.png"), "processed_ảnh đẹp.png");
    assert_eq!(make_entry_name("../danger.txt"), "processed_../danger.txt");
    let items = vec![
        ("ảnh đẹp.png".to_string(), png_rgb(1, 1)),
        ("sub/folder/file.png".to_string(), png_rgb(1, 1)),
        ("../danger.txt".to_string(), png_rgb(1, 1)),
    ];
    let zip_bytes = run_pipeline(items, Transform::Grayscale).unwrap();
    assert_eq!(
        entry_names(zip_bytes),
        vec![
            "processed_ảnh đẹp.png",
            "processed_sub/folder/file.png",
            "processed_../danger.txt"
        ]
    );
}

#[test]
fn duplicate_names_give_two_entries() {
    let list = vec![
        ("same.png".to_string(), b"one".to_vec()),
        ("same.png".to_string(), b"two".to_vec()),
    ];
    let zip_bytes = compress_images(list).unwrap();
    assert_eq!(entry_names(zip_bytes), vec!["processed_same.png", "processed_same.png"]);
}

#[test]
fn one_bad_item_fails_the_whole_batch() {
    let items = vec![
        ("good1.png".to_string(), png_rgb(2, 2)),
        ("bad.png".to_string(), b"garbage".to_vec()),
        ("good2.png".to_string(), png_rgb(3, 3)),
    ];
    let outcome = settle_outcome(Some(resize_and_pack(items)));
    assert_eq!(outcome, Err(PipelineError::DecodeFailure));
    assert_eq!(response_status(&outcome), 400);
}

#[test]
fn archive_round_trip_keeps_names_and_bytes() {
    let list = vec![
        ("first".to_string(), vec![0u8, 255, 7, 7]),
        ("second/x".to_string(), Vec::new()),
        ("third".to_string(), b"payload".to_vec()),
    ];
    let zip_bytes = compress_images(list.clone()).unwrap();
    let mut archive = ZipArchive::new(Cursor::new(zip_bytes)).unwrap();
    assert_eq!(archive.len(), list.len());
    for (i, (name, bytes)) in list.iter().enumerate() {
        let mut f = archive.by_index(i).unwrap();
        assert_eq!(f.name(), format!("processed_{}", name));
        let mut content = Vec::new();
        f.read_to_end(&mut content).unwrap();
        assert_eq!(&content, bytes);
    }
}

#[test]
fn transformed_item_round_trips_through_png() {
    let out = resize_images_one(png_rgb(17, 40));
    let img = image::load_from_memory(&out).unwrap();
    assert_eq!((img.width(), img.height()), (300, 300));
    assert_eq!(img.color(), image::ColorType::Rgb8);
}

fn resize_images_one(bytes: Vec<u8>) -> Vec<u8> {
    let mut out = image_batch::batch::resize_images(vec![("one.png".to_string(), bytes)]).unwrap();
    out.pop().unwrap().1
}

#[test]
fn gather_returns_first_failure_by_position() {
    let results = vec![
        Ok(("a".to_string(), vec![1])),
        Err(PipelineError::EncodeFailure),
        Err(PipelineError::DecodeFailure),
    ];
    assert_eq!(gather_results(results), Err(PipelineError::EncodeFailure));
    let ok = vec![Ok(("a".to_string(), vec![1])), Ok(("b".to_string(), vec![2, 3]))];
    assert_eq!(
        gather_results(ok),
        Ok(vec![("a".to_string(), vec![1]), ("b".to_string(), vec![2, 3])])
    );
    assert_eq!(gather_results(Vec::new()), Ok(Vec::new()));
}

#[test]
fn worker_abort_is_a_worker_failure() {
    let outcome = settle_outcome(None);
    assert_eq!(outcome, Err(PipelineError::WorkerFailure));
    assert_eq!(response_status(&outcome), 500);
    assert_eq!(settle_outcome(Some(Ok(vec![9]))), Ok(vec![9]));
}

#[test]
fn status_codes_of_each_failure() {
    assert_eq!(PipelineError::DecodeFailure.status_code(), 400);
    assert_eq!(PipelineError::EncodeFailure.status_code(), 500);
    assert_eq!(PipelineError::ArchiveFailure.status_code(), 500);
    assert_eq!(PipelineError::WorkerFailure.status_code(), 500);
    assert_eq!(response_status(&Ok(Vec::new())), 200);
}

#[test]
fn missing_file_name_defaults() {
    assert_eq!(item_name(None), "image.png");
    assert_eq!(item_name(Some("cat.jpg")), "cat.jpg");
}

fn png_of(img: image::DynamicImage) -> Vec<u8> {
    let mut out = Vec::new();
    img.write_to(&mut Cursor::new(&mut out), image::ImageFormat::Png).unwrap();
    out
}

#[test]
fn wide_image_is_stretched_not_letterboxed() {
    let out = image_batch::batch::resize_images(vec![("wide.png".to_string(), png_rgb(600, 200))])
        .unwrap();
    let img = image::load_from_memory(&out[0].1).unwrap();
    assert_eq!((img.width(), img.height()), (300, 300));
}

#[test]
fn resize_keeps_each_layout() {
    let cases = vec![
        (image::DynamicImage::ImageLumaA8(image::GrayAlphaImage::new(3, 2)), image::ColorType::La8),
        (image::DynamicImage::ImageRgba8(image::RgbaImage::new(2, 5)), image::ColorType::Rgba8),
        (image::DynamicImage::ImageLuma16(image::ImageBuffer::new(4, 4)), image::ColorType::L16),
        (image::DynamicImage::ImageRgb16(image::ImageBuffer::new(1, 3)), image::ColorType::Rgb16),
    ];
    for (img, color) in cases {
        let out = transform_item("p.png".to_string(), png_of(img), Transform::Resize).unwrap();
        let back = image::load_from_memory(&out.1).unwrap();
        assert_eq!((back.width(), back.height()), (300, 300));
        assert_eq!(back.color(), color);
    }
}

#[test]
fn decoded_shape_reports_layout() {
    let p = decode(&png_of(image::DynamicImage::ImageRgba16(image::ImageBuffer::new(7, 2))))
        .unwrap();
    assert_eq!(p.shape(), Shape { width: 7, height: 2, layout: Layout::Rgba16 });
    let g = apply_transform(&p, Transform::Grayscale);
    assert_eq!(g.shape(), Shape { width: 7, height: 2, layout: Layout::La16 });
}

#[test]
fn bad_item_in_last_place_fails_with_decode_failure() {
    let items = vec![
        ("a.png".to_string(), png_rgb(1, 1)),
        ("b.png".to_string(), png_rgb(2, 3)),
        ("bad.png".to_string(), b"not an image".to_vec()),
    ];
    assert_eq!(resize_and_pack(items), Err(PipelineError::DecodeFailure));
}

#[test]
fn equal_batches_give_equal_archives() {
    let make = || vec![("x.png".to_string(), png_rgb(5, 5)), ("y.png".to_string(), png_luma(2, 9))];
    assert_eq!(resize_and_pack(make()).unwrap(), resize_and_pack(make()).unwrap());
}
