use iiif_forager::iiif::{
    Annotation, BaseUrls, Canvas, ImageFormat, ImageResource, Manifest, Metadata, Resource,
    Sequence, Service, Uri, Value,
};
use iiif_forager::source::{
    ImageInfo, ManifestSource, PathStatus, ScanEntry, SidecarContext, SidecarResult, SourceError,
};

fn base_urls() -> BaseUrls {
    BaseUrls::new(
        "http://pres.example".to_string(),
        "http://img.example".to_string(),
    )
}

fn source() -> ManifestSource {
    ManifestSource::new("/data".to_string(), base_urls(), "-".to_string())
}

fn page(name: &str, format: ImageFormat, width: u64, height: u64) -> ScanEntry {
    ScanEntry {
        file_name: name.to_string(),
        image: Some(ImageInfo {
            format,
            width,
            height,
        }),
    }
}

fn other(name: &str) -> ScanEntry {
    ScanEntry {
        file_name: name.to_string(),
        image: None,
    }
}

#[test]
fn one_classified_image_yields_one_canvas() {
    let src = source();
    let entries = vec![
        page("page1.jpg", ImageFormat::JPEG, 800, 1200),
        other("notes.txt"),
    ];
    let m = src
        .manifest_for(
            "books-section1",
            PathStatus::Directory,
            entries,
            SidecarResult::Absent,
        )
        .unwrap();

    assert_eq!(m.sequences.len(), 1);
    let sequence = &m.sequences[0];
    assert_eq!(sequence.canvases.len(), 1);
    let canvas = &sequence.canvases[0];
    assert_eq!(canvas.width, 800);
    assert_eq!(canvas.height, 1200);
    assert_eq!(canvas.label, "page1.jpg");
    assert_eq!(
        canvas.id.value,
        "http://pres.example/books-section1/canvas/0"
    );
    assert_eq!(canvas.images.len(), 1);
    let annotation = &canvas.images[0];
    assert_eq!(annotation.motivation, "sc:painting");
    assert_eq!(annotation.on.value, canvas.id.value);
    let Resource::Image(resource) = &annotation.resource;
    assert_eq!(
        resource.id.value,
        "http://img.example/books-section1/books-section1-page1.jpg/full/full/default.jpg"
    );
    assert_eq!(resource.format, "image/jpeg");
    assert_eq!(resource.width, 800);
    assert_eq!(resource.height, 1200);
    assert_eq!(resource.service.id.value, "http://img.example/books-section1");
}

#[test]
fn manifest_header_fields_are_derived() {
    let src = source();
    let m = src
        .manifest_for("books", PathStatus::Directory, vec![], SidecarResult::Absent)
        .unwrap();
    assert_eq!(m.id.value, "http://pres.example/books/manifest");
    assert_eq!(
        m.context.value,
        "http://iiif.io/api/presentation/2/context.json"
    );
    assert_eq!(m.iiif_type, "sc:Manifest");
    assert_eq!(m.label, "books");
    let sequence = &m.sequences[0];
    assert_eq!(
        sequence.id.value,
        "http://pres.example/books/sequence/normal"
    );
    assert_eq!(sequence.iiif_type, "sc:Sequence");
}

#[test]
fn no_classifiable_images_yields_empty_canvas_list() {
    let src = source();
    let entries = vec![other("notes.txt"), other("readme.md")];
    let m = src
        .manifest_for(
            "books",
            PathStatus::Directory,
            entries,
            SidecarResult::Absent,
        )
        .unwrap();
    assert_eq!(m.sequences.len(), 1);
    assert!(m.sequences[0].canvases.is_empty());
}

#[test]
fn missing_path_yields_path_not_found() {
    let src = source();
    let r = src.manifest_for(
        "books-section1",
        PathStatus::Missing,
        vec![],
        SidecarResult::Absent,
    );
    match r {
        Err(SourceError::PathNotFound(p)) => assert_eq!(p, "/data/books/section1"),
        _ => panic!("expected PathNotFound"),
    }
}

#[test]
fn file_path_yields_path_not_directory() {
    let src = source();
    let r = src.manifest_for(
        "books-section1",
        PathStatus::NotDirectory,
        vec![],
        SidecarResult::Absent,
    );
    match r {
        Err(SourceError::PathNotDirectory(p)) => assert_eq!(p, "/data/books/section1"),
        _ => panic!("expected PathNotDirectory"),
    }
}

#[test]
fn sidecar_metadata_keeps_order_then_location() {
    let src = source();
    let sidecar = SidecarResult::Loaded(SidecarContext {
        description: Some("A fine book".to_string()),
        metadata: vec![
            Metadata::key_value("author", "Someone"),
            Metadata::key_value("year", "1901"),
        ],
    });
    let m = src
        .manifest_for("books", PathStatus::Directory, vec![], sidecar)
        .unwrap();
    assert_eq!(m.metadata.len(), 3);
    assert_eq!(m.metadata[0].label, "author");
    assert_eq!(m.metadata[0].value, Value::Single("Someone".to_string()));
    assert_eq!(m.metadata[1].label, "year");
    assert_eq!(m.metadata[1].value, Value::Single("1901".to_string()));
    assert_eq!(m.metadata[2].label, "location");
    assert_eq!(m.metadata[2].value, Value::Single("books".to_string()));
    assert_eq!(m.description, Some("A fine book".to_string()));
}

#[test]
fn absent_sidecar_degrades_to_location_only() {
    let src = source();
    let m = src
        .manifest_for("books", PathStatus::Directory, vec![], SidecarResult::Absent)
        .unwrap();
    assert_eq!(m.metadata.len(), 1);
    assert_eq!(m.metadata[0].label, "location");
    assert_eq!(m.metadata[0].value, Value::Single("books".to_string()));
    assert_eq!(m.description, Some("books".to_string()));
}

#[test]
fn loaded_but_empty_sidecar_falls_back_to_identifier() {
    let src = source();
    let m = src
        .manifest_for(
            "books",
            PathStatus::Directory,
            vec![],
            SidecarResult::Loaded(SidecarContext::empty()),
        )
        .unwrap();
    assert_eq!(m.metadata.len(), 1);
    assert_eq!(m.metadata[0].label, "location");
    assert_eq!(m.description, Some("books".to_string()));
}

#[test]
fn failed_sidecar_degrades_like_absent() {
    let src = source();
    let m = src
        .manifest_for(
            "books",
            PathStatus::Directory,
            vec![],
            SidecarResult::Failed("unreadable".to_string()),
        )
        .unwrap();
    assert_eq!(m.metadata.len(), 1);
    assert_eq!(m.metadata[0].label, "location");
    assert_eq!(m.description, Some("books".to_string()));
}

#[test]
fn same_listing_twice_builds_identical_manifests() {
    let src = source();
    let entries = || {
        vec![
            page("page1.jpg", ImageFormat::JPEG, 800, 1200),
            page("page2.png", ImageFormat::PNG, 640, 480),
            other("notes.txt"),
        ]
    };
    let sidecar = || {
        SidecarResult::Loaded(SidecarContext {
            description: None,
            metadata: vec![Metadata::key_value("author", "Someone")],
        })
    };
    let m1 = src
        .manifest_for("books", PathStatus::Directory, entries(), sidecar())
        .unwrap();
    let m2 = src
        .manifest_for("books", PathStatus::Directory, entries(), sidecar())
        .unwrap();
    assert_eq!(m1, m2);
}

#[test]
fn canvas_indices_follow_listing_order_skipping_unclassifiable() {
    let src = source();
    let entries = vec![
        page("a.jpg", ImageFormat::JPEG, 10, 20),
        other("skip.txt"),
        page("b.png", ImageFormat::PNG, 30, 40),
        page("c.jpg", ImageFormat::JPEG, 50, 60),
    ];
    let m = src
        .manifest_for("item", PathStatus::Directory, entries, SidecarResult::Absent)
        .unwrap();
    let canvases = &m.sequences[0].canvases;
    assert_eq!(canvases.len(), 3);
    assert_eq!(canvases[0].id.value, "http://pres.example/item/canvas/0");
    assert_eq!(canvases[0].label, "a.jpg");
    assert_eq!(canvases[1].id.value, "http://pres.example/item/canvas/1");
    assert_eq!(canvases[1].label, "b.png");
    assert_eq!(canvases[2].id.value, "http://pres.example/item/canvas/2");
    assert_eq!(canvases[2].label, "c.jpg");
}

#[test]
fn unknown_format_gives_empty_extension_and_unknown_mime() {
    let src = source();
    let entries = vec![page("scan.tif", ImageFormat::Unknown, 5, 6)];
    let m = src
        .manifest_for("item", PathStatus::Directory, entries, SidecarResult::Absent)
        .unwrap();
    let Resource::Image(resource) = &m.sequences[0].canvases[0].images[0].resource;
    assert_eq!(
        resource.id.value,
        "http://img.example/item/item-scan.tif/full/full/default."
    );
    assert_eq!(resource.format, "image/unknown");
}

#[test]
fn image_format_extension_and_mime() {
    assert_eq!(ImageFormat::JPEG.extension(), "jpg");
    assert_eq!(ImageFormat::PNG.extension(), "png");
    assert_eq!(ImageFormat::Unknown.extension(), "");
    assert_eq!(ImageFormat::JPEG.format(), "image/jpeg");
    assert_eq!(ImageFormat::PNG.format(), "image/png");
    assert_eq!(ImageFormat::Unknown.format(), "image/unknown");
}

#[test]
fn constructors_derive_uris() {
    let urls = base_urls();
    let m = Manifest::new(&urls, "it", "label", vec![], None);
    assert_eq!(m.id.value, "http://pres.example/it/manifest");
    assert!(m.sequences.is_empty());
    assert!(m.metadata.is_empty());
    assert_eq!(m.description, None);

    let s = Sequence::new(&urls, "it", "label");
    assert_eq!(s.id.value, "http://pres.example/it/sequence/normal");
    assert!(s.canvases.is_empty());

    let c = Canvas::new(&urls, "it", 12, "p.jpg", 100, 200);
    assert_eq!(c.id.value, "http://pres.example/it/canvas/12");
    assert_eq!(c.iiif_type, "sc:Canvas");
    assert!(c.images.is_empty());

    let service = Service::new_image_service(&urls, "it");
    assert_eq!(service.id.value, "http://img.example/it");
    assert_eq!(
        service.context.value,
        "http://iiif.io/api/image/2/context.json"
    );
    assert_eq!(
        service.profile.value,
        "http://iiif.io/api/image/2/level2.json"
    );
    assert_eq!(service.protocol.value, "http://iiif.io/api/image");

    let r = ImageResource::new(&urls, "it", "it-p.jpg", &ImageFormat::PNG, 1, 2);
    assert_eq!(
        r.id.value,
        "http://img.example/it/it-p.jpg/full/full/default.png"
    );
    assert_eq!(r.iiif_type, "dctypes:Image");
    assert_eq!(r.format, "image/png");

    let a = Annotation::new(&urls, Resource::Image(r), Uri::new("on".to_string()));
    assert_eq!(a.iiif_type, "oa:Annotation");
    assert_eq!(a.motivation, "sc:painting");
    assert_eq!(a.on.value, "on");
}

#[test]
fn sequence_add_image_appends_indexed_canvas() {
    let urls = base_urls();
    let mut s = Sequence::new(&urls, "it", "it");
    s.add_image(&urls, "it", "it-a.jpg", "a.jpg", &ImageFormat::JPEG, 7, 8);
    s.add_image(&urls, "it", "it-b.jpg", "b.jpg", &ImageFormat::JPEG, 9, 10);
    assert_eq!(s.canvases.len(), 2);
    assert_eq!(s.canvases[0].id.value, "http://pres.example/it/canvas/0");
    assert_eq!(s.canvases[1].id.value, "http://pres.example/it/canvas/1");
    assert_eq!(s.canvases[1].width, 9);
    assert_eq!(s.canvases[1].images.len(), 1);
}

#[test]
fn metadata_builders() {
    let m = Metadata::key_value("location", "books");
    assert_eq!(m.label, "location");
    assert_eq!(m.value, Value::Single("books".to_string()));

    let many = Metadata::new(
        "titles",
        Value::Many(vec!["one".to_string(), "two".to_string()]),
    );
    assert_eq!(many.label, "titles");
    assert_eq!(
        many.value,
        Value::Many(vec!["one".to_string(), "two".to_string()])
    );
}
