//! The IIIF Presentation API v2 document model: typed Manifest, Sequence,
//! Canvas, Annotation, Resource, Image-Service and Metadata values, with
//! constructors that derive every URI from the base-URL configuration and an
//! identifier. Each type has a mathematical view, and every constructor pins
//! its whole result down at the view level.

use vstd::prelude::*;

use crate::text::{contains_char, dec_digit, dec_str, usize_to_string};

verus! {

// ---------------------------------------------------------------------------
// Views: the mathematical model of each document type.
// ---------------------------------------------------------------------------
/// Model of a metadata value: one string, several strings, or
/// language-tagged strings.
#[verifier::ext_equal]
pub ghost enum ValueV {
    Single(Seq<char>),
    Many(Seq<Seq<char>>),
    Multilang(Seq<LocalizedValueV>),
}

/// Model of a language-tagged string.
#[verifier::ext_equal]
pub ghost struct LocalizedValueV {
    pub value: Seq<char>,
    pub language: Seq<char>,
}

/// Model of one metadata entry.
#[verifier::ext_equal]
pub ghost struct MetadataV {
    pub label: Seq<char>,
    pub value: ValueV,
}

/// Model of the base-URL configuration.
#[verifier::ext_equal]
pub ghost struct BaseUrlsV {
    pub presentation: Seq<char>,
    pub image: Seq<char>,
}

/// Model of an Image-Service descriptor.
#[verifier::ext_equal]
pub ghost struct ServiceV {
    pub context: Seq<char>,
    pub id: Seq<char>,
    pub profile: Seq<char>,
    pub protocol: Seq<char>,
}

/// Model of a bare image reference.
#[verifier::ext_equal]
pub ghost struct ImageV {
    pub id: Seq<char>,
    pub service: ServiceV,
}

/// Model of a pixel-bearing resource.
#[verifier::ext_equal]
pub ghost struct ImageResourceV {
    pub id: Seq<char>,
    pub iiif_type: Seq<char>,
    pub format: Seq<char>,
    pub service: ServiceV,
    pub width: u64,
    pub height: u64,
}

/// Model of an annotation body.
#[verifier::ext_equal]
pub ghost enum ResourceV {
    Image(ImageResourceV),
}

/// Model of a painting annotation.
#[verifier::ext_equal]
pub ghost struct AnnotationV {
    pub context: Seq<char>,
    pub iiif_type: Seq<char>,
    pub motivation: Seq<char>,
    pub resource: ResourceV,
    pub on: Seq<char>,
}

/// Model of a thumbnail reference.
#[verifier::ext_equal]
pub ghost struct ThumbnailV {
    pub id: Seq<char>,
    pub iiif_type: Seq<char>,
    pub height: u64,
    pub width: u64,
}

/// Model of one canvas.
#[verifier::ext_equal]
pub ghost struct CanvasV {
    pub id: Seq<char>,
    pub context: Seq<char>,
    pub iiif_type: Seq<char>,
    pub label: Seq<char>,
    pub height: u64,
    pub width: u64,
    pub images: Seq<AnnotationV>,
}

/// Model of one sequence.
#[verifier::ext_equal]
pub ghost struct SequenceV {
    pub context: Seq<char>,
    pub id: Seq<char>,
    pub iiif_type: Seq<char>,
    pub label: Seq<char>,
    pub canvases: Seq<CanvasV>,
}

/// Model of the whole manifest document.
#[verifier::ext_equal]
pub ghost struct ManifestV {
    pub context: Seq<char>,
    pub id: Seq<char>,
    pub iiif_type: Seq<char>,
    pub label: Seq<char>,
    pub metadata: Seq<MetadataV>,
    pub description: Option<Seq<char>>,
    pub sequences: Seq<SequenceV>,
}

// ---------------------------------------------------------------------------
// The fixed IIIF constants and the URI derivation rules.
// ---------------------------------------------------------------------------
/// The Presentation API context URI.
pub open spec fn pres_context_uri() -> Seq<char> {
    "http://iiif.io/api/presentation/2/context.json"@
}

/// The Image API context URI.
pub open spec fn image_context_uri() -> Seq<char> {
    "http://iiif.io/api/image/2/context.json"@
}

/// The Image API compliance profile URI.
pub open spec fn image_profile_uri() -> Seq<char> {
    "http://iiif.io/api/image/2/level2.json"@
}

/// The Image API protocol URI.
pub open spec fn image_protocol_uri() -> Seq<char> {
    "http://iiif.io/api/image"@
}

/// Manifest id: `{presentation_base}/{item_id}/manifest`.
pub open spec fn manifest_uri(pres: Seq<char>, item: Seq<char>) -> Seq<char> {
    pres + "/"@ + item + "/manifest"@
}

/// Sequence id: `{presentation_base}/{item_id}/sequence/normal`.
pub open spec fn sequence_uri(pres: Seq<char>, item: Seq<char>) -> Seq<char> {
    pres + "/"@ + item + "/sequence/normal"@
}

/// Canvas id: `{presentation_base}/{item_id}/canvas/{index}`.
pub open spec fn canvas_uri(pres: Seq<char>, item: Seq<char>, index: nat) -> Seq<char> {
    pres + "/"@ + item + "/canvas/"@ + dec_str(index)
}

/// Image-Service id: `{image_base}/{item_id}` (one service per item).
pub open spec fn service_uri(image: Seq<char>, id: Seq<char>) -> Seq<char> {
    image + "/"@ + id
}

/// The file-name extension derived from a classified format.
pub open spec fn ext_spec(f: ImageFormat) -> Seq<char> {
    match f {
        ImageFormat::JPEG => "jpg"@,
        ImageFormat::PNG => "png"@,
        ImageFormat::Unknown => ""@,
    }
}

/// The MIME type derived from a classified format.
pub open spec fn mime_spec(f: ImageFormat) -> Seq<char> {
    match f {
        ImageFormat::JPEG => "image/jpeg"@,
        ImageFormat::PNG => "image/png"@,
        ImageFormat::Unknown => "image/unknown"@,
    }
}

/// Image asset id:
/// `{image_base}/{item_id}/{image_id}/full/full/default.{ext}`.
pub open spec fn image_asset_uri(
    image: Seq<char>,
    item: Seq<char>,
    image_id: Seq<char>,
    fmt: ImageFormat,
) -> Seq<char> {
    image + "/"@ + item + "/"@ + image_id + "/full/full/default."@ + ext_spec(fmt)
}

/// Model of the service descriptor derived for an identifier.
pub open spec fn service_v(base: BaseUrlsV, id: Seq<char>) -> ServiceV {
    ServiceV {
        context: image_context_uri(),
        id: service_uri(base.image, id),
        profile: image_profile_uri(),
        protocol: image_protocol_uri(),
    }
}

/// Model of the image resource derived for an item, an image identifier and
/// a classification result.
pub open spec fn image_resource_v(
    base: BaseUrlsV,
    item: Seq<char>,
    image_id: Seq<char>,
    fmt: ImageFormat,
    width: u64,
    height: u64,
) -> ImageResourceV {
    ImageResourceV {
        id: image_asset_uri(base.image, item, image_id, fmt),
        iiif_type: "dctypes:Image"@,
        format: mime_spec(fmt),
        service: service_v(base, item),
        width,
        height,
    }
}

/// Model of a painting annotation binding `resource` onto the canvas `on`.
pub open spec fn annotation_v(resource: ResourceV, on: Seq<char>) -> AnnotationV {
    AnnotationV {
        context: pres_context_uri(),
        iiif_type: "oa:Annotation"@,
        motivation: "sc:painting"@,
        resource,
        on,
    }
}

/// Model of a freshly constructed canvas with no image yet.
pub open spec fn canvas_v(
    base: BaseUrlsV,
    item: Seq<char>,
    index: nat,
    label: Seq<char>,
    width: u64,
    height: u64,
) -> CanvasV {
    CanvasV {
        id: canvas_uri(base.presentation, item, index),
        context: pres_context_uri(),
        iiif_type: "sc:Canvas"@,
        label,
        height,
        width,
        images: Seq::empty(),
    }
}

/// Model of a canvas carrying exactly one painting annotation for the image
/// identified by `image_id`.
pub open spec fn canvas_with_image_v(
    base: BaseUrlsV,
    item: Seq<char>,
    index: nat,
    label: Seq<char>,
    image_id: Seq<char>,
    fmt: ImageFormat,
    width: u64,
    height: u64,
) -> CanvasV {
    CanvasV {
        images: seq![
            annotation_v(
                ResourceV::Image(image_resource_v(base, item, image_id, fmt, width, height)),
                canvas_uri(base.presentation, item, index),
            ),
        ],
        ..canvas_v(base, item, index, label, width, height)
    }
}

// ---------------------------------------------------------------------------
// The document types.
// ---------------------------------------------------------------------------
/// A metadata value: one string, several strings, or language-tagged strings.
#[derive(Debug, PartialEq)]
pub enum Value {
    Single(String),
    Many(Vec<String>),
    Multilang(Vec<LocalizedValue>),
}

impl View for Value {
    type V = ValueV;

    open spec fn view(&self) -> ValueV {
        match self {
            Value::Single(s) => ValueV::Single(s@),
            Value::Many(v) => ValueV::Many(v.deep_view()),
            Value::Multilang(v) => ValueV::Multilang(v.deep_view()),
        }
    }
}

impl DeepView for Value {
    type V = ValueV;

    open spec fn deep_view(&self) -> ValueV {
        self.view()
    }
}

/// A string together with its language tag.
#[derive(Debug, PartialEq)]
pub struct LocalizedValue {
    pub value: String,
    pub language: String,
}

impl View for LocalizedValue {
    type V = LocalizedValueV;

    open spec fn view(&self) -> LocalizedValueV {
        LocalizedValueV { value: self.value@, language: self.language@ }
    }
}

impl DeepView for LocalizedValue {
    type V = LocalizedValueV;

    open spec fn deep_view(&self) -> LocalizedValueV {
        self.view()
    }
}

/// One label/value metadata entry.
#[derive(Debug, PartialEq)]
pub struct Metadata {
    pub label: String,
    pub value: Value,
}

impl View for Metadata {
    type V = MetadataV;

    open spec fn view(&self) -> MetadataV {
        MetadataV { label: self.label@, value: self.value@ }
    }
}

impl DeepView for Metadata {
    type V = MetadataV;

    open spec fn deep_view(&self) -> MetadataV {
        self.view()
    }
}

impl Metadata {
    /// An entry with the given label and value.
    pub fn new(label: &str, value: Value) -> (m: Metadata)
        ensures
            m@ == (MetadataV { label: label@, value: value@ }),
    {
        Metadata { label: label.to_owned(), value }
    }

    /// An entry whose value is a single string.
    pub fn key_value(label: &str, value: &str) -> (m: Metadata)
        ensures
            m@ == (MetadataV { label: label@, value: ValueV::Single(value@) }),
    {
        Metadata { label: label.to_owned(), value: Value::Single(value.to_owned()) }
    }
}

/// An absolute URI, wrapped.
#[derive(Debug, Clone, PartialEq)]
pub struct Uri {
    pub value: String,
}

impl View for Uri {
    type V = Seq<char>;

    open spec fn view(&self) -> Seq<char> {
        self.value@
    }
}

impl DeepView for Uri {
    type V = Seq<char>;

    open spec fn deep_view(&self) -> Seq<char> {
        self.view()
    }
}

impl Uri {
    /// Wraps an already absolute URI string.
    pub fn new(value: String) -> (u: Uri)
        ensures
            u@ == value@,
    {
        Uri { value }
    }

    /// A fresh `Uri` holding the same string.
    pub fn duplicate(&self) -> (u: Uri)
        ensures
            u@ == self@,
    {
        Uri { value: self.value.clone() }
    }
}

/// The two configured API base URLs, shared by every construction call.
pub struct BaseUrls {
    pub presentation: String,
    pub image: String,
}

impl View for BaseUrls {
    type V = BaseUrlsV;

    open spec fn view(&self) -> BaseUrlsV {
        BaseUrlsV { presentation: self.presentation@, image: self.image@ }
    }
}

impl BaseUrls {
    /// The configuration from the two resolved base URLs.
    pub fn new(presentation: String, image: String) -> (b: BaseUrls)
        ensures
            b@ == (BaseUrlsV { presentation: presentation@, image: image@ }),
    {
        BaseUrls { presentation, image }
    }
}

/// An Image-Service descriptor.
#[derive(Debug, PartialEq)]
pub struct Service {
    pub context: Uri,
    pub id: Uri,
    pub profile: Uri,
    pub protocol: Uri,
}

impl View for Service {
    type V = ServiceV;

    open spec fn view(&self) -> ServiceV {
        ServiceV {
            context: self.context@,
            id: self.id@,
            profile: self.profile@,
            protocol: self.protocol@,
        }
    }
}

impl DeepView for Service {
    type V = ServiceV;

    open spec fn deep_view(&self) -> ServiceV {
        self.view()
    }
}

impl Service {
    /// The Image API service descriptor for one identifier: fixed context,
    /// profile and protocol, id derived from the image base URL.
    pub fn new_image_service(base_urls: &BaseUrls, image_id: &str) -> (s: Service)
        ensures
            s@ == service_v(base_urls@, image_id@),
    {
        let context = Uri::new("http://iiif.io/api/image/2/context.json".to_owned());
        let mut id_value = base_urls.image.clone();
        id_value.append("/");
        id_value.append(image_id);
        let id = Uri::new(id_value);
        let profile = Uri::new("http://iiif.io/api/image/2/level2.json".to_owned());
        let protocol = Uri::new("http://iiif.io/api/image".to_owned());
        let s = Service { context, id, profile, protocol };
        proof {
            assert(s@ =~= service_v(base_urls@, image_id@));
        }
        s
    }
}

/// A bare image reference with its service.
#[derive(Debug, PartialEq)]
pub struct Image {
    pub id: Uri,
    pub service: Service,
}

impl View for Image {
    type V = ImageV;

    open spec fn view(&self) -> ImageV {
        ImageV { id: self.id@, service: self.service@ }
    }
}

/// The classified format of an image file.
pub enum ImageFormat {
    JPEG,
    PNG,
    Unknown,
}

impl ImageFormat {
    /// The file-name extension for the format.
    pub fn extension(&self) -> (r: &str)
        ensures
            r@ == ext_spec(*self),
    {
        match self {
            ImageFormat::JPEG => "jpg",
            ImageFormat::PNG => "png",
            ImageFormat::Unknown => "",
        }
    }

    /// The MIME type for the format.
    pub fn format(&self) -> (r: &str)
        ensures
            r@ == mime_spec(*self),
    {
        match self {
            ImageFormat::JPEG => "image/jpeg",
            ImageFormat::PNG => "image/png",
            ImageFormat::Unknown => "image/unknown",
        }
    }
}

/// A pixel-bearing resource: derived asset URI, MIME type, dimensions, and
/// the embedded service descriptor.
#[derive(Debug, PartialEq)]
pub struct ImageResource {
    pub id: Uri,
    pub iiif_type: String,
    pub format: String,
    pub service: Service,
    pub width: u64,
    pub height: u64,
}

impl View for ImageResource {
    type V = ImageResourceV;

    open spec fn view(&self) -> ImageResourceV {
        ImageResourceV {
            id: self.id@,
            iiif_type: self.iiif_type@,
            format: self.format@,
            service: self.service@,
            width: self.width,
            height: self.height,
        }
    }
}

impl ImageResource {
    /// The resource for one classified image: asset URI derived from the
    /// image base URL, item and image identifiers and the format; the
    /// service is keyed by the item identifier.
    pub fn new(
        base_urls: &BaseUrls,
        item_id: &str,
        image_id: &str,
        image_format: &ImageFormat,
        width: u64,
        height: u64,
    ) -> (r: ImageResource)
        ensures
            r@ == image_resource_v(base_urls@, item_id@, image_id@, *image_format, width, height),
    {
        let mut id_value = base_urls.image.clone();
        id_value.append("/");
        id_value.append(item_id);
        id_value.append("/");
        id_value.append(image_id);
        id_value.append("/full/full/default.");
        id_value.append(image_format.extension());
        let id = Uri::new(id_value);
        let iiif_type = "dctypes:Image".to_owned();
        let service = Service::new_image_service(base_urls, item_id);
        let format = image_format.format().to_owned();
        let r = ImageResource { id, iiif_type, format, service, width, height };
        proof {
            assert(r@ =~= image_resource_v(
                base_urls@,
                item_id@,
                image_id@,
                *image_format,
                width,
                height,
            ));
        }
        r
    }
}

/// An annotation body.
#[derive(Debug, PartialEq)]
pub enum Resource {
    Image(ImageResource),
}

impl View for Resource {
    type V = ResourceV;

    open spec fn view(&self) -> ResourceV {
        match self {
            Resource::Image(r) => ResourceV::Image(r@),
        }
    }
}

impl DeepView for Resource {
    type V = ResourceV;

    open spec fn deep_view(&self) -> ResourceV {
        self.view()
    }
}

/// A painting annotation binding a resource onto a canvas.
#[derive(Debug, PartialEq)]
pub struct Annotation {
    pub context: Uri,
    pub iiif_type: String,
    pub motivation: String,
    pub resource: Resource,
    pub on: Uri,
}

impl View for Annotation {
    type V = AnnotationV;

    open spec fn view(&self) -> AnnotationV {
        AnnotationV {
            context: self.context@,
            iiif_type: self.iiif_type@,
            motivation: self.motivation@,
            resource: self.resource@,
            on: self.on@,
        }
    }
}

impl DeepView for Annotation {
    type V = AnnotationV;

    open spec fn deep_view(&self) -> AnnotationV {
        self.view()
    }
}

impl Annotation {
    /// A painting annotation for `resource` on the canvas `on`.
    pub fn new(base_urls: &BaseUrls, resource: Resource, on: Uri) -> (a: Annotation)
        ensures
            a@ == annotation_v(resource@, on@),
    {
        let _ = base_urls;
        let context = Uri::new("http://iiif.io/api/presentation/2/context.json".to_owned());
        let iiif_type = "oa:Annotation".to_owned();
        let motivation = "sc:painting".to_owned();
        Annotation { context, iiif_type, motivation, resource, on }
    }
}

/// A thumbnail reference.
#[derive(Debug, PartialEq)]
pub struct Thumbnail {
    pub id: Uri,
    pub iiif_type: String,
    pub height: u64,
    pub width: u64,
}

impl View for Thumbnail {
    type V = ThumbnailV;

    open spec fn view(&self) -> ThumbnailV {
        ThumbnailV {
            id: self.id@,
            iiif_type: self.iiif_type@,
            height: self.height,
            width: self.width,
        }
    }
}

/// One visual page, carrying its painting annotations.
#[derive(Debug, PartialEq)]
pub struct Canvas {
    pub id: Uri,
    pub context: Uri,
    pub iiif_type: String,
    pub label: String,
    pub height: u64,
    pub width: u64,
    pub images: Vec<Annotation>,
}

impl View for Canvas {
    type V = CanvasV;

    open spec fn view(&self) -> CanvasV {
        CanvasV {
            id: self.id@,
            context: self.context@,
            iiif_type: self.iiif_type@,
            label: self.label@,
            height: self.height,
            width: self.width,
            images: self.images.deep_view(),
        }
    }
}

impl DeepView for Canvas {
    type V = CanvasV;

    open spec fn deep_view(&self) -> CanvasV {
        self.view()
    }
}

impl Canvas {
    /// An empty canvas whose id embeds its zero-based index in the sequence.
    pub fn new(
        base_urls: &BaseUrls,
        item_id: &str,
        index: usize,
        label: &str,
        width: u64,
        height: u64,
    ) -> (c: Canvas)
        ensures
            c@ == canvas_v(base_urls@, item_id@, index as nat, label@, width, height),
    {
        let mut id_value = base_urls.presentation.clone();
        id_value.append("/");
        id_value.append(item_id);
        id_value.append("/canvas/");
        let index_str = usize_to_string(index);
        id_value.append(index_str.as_str());
        let id = Uri::new(id_value);
        let context = Uri::new("http://iiif.io/api/presentation/2/context.json".to_owned());
        let iiif_type = "sc:Canvas".to_owned();
        let images: Vec<Annotation> = Vec::new();
        let c = Canvas { id, context, iiif_type, label: label.to_owned(), height, width, images };
        proof {
            assert(c@ =~= canvas_v(base_urls@, item_id@, index as nat, label@, width, height));
        }
        c
    }

    /// Appends one painting annotation.
    pub fn add_image(&mut self, image: Annotation)
        ensures
            final(self)@ == (CanvasV { images: old(self)@.images.push(image@), ..old(self)@ }),
    {
        let ghost prev = *self;
        self.images.push(image);
        proof {
            assert(self@ =~= (CanvasV { images: prev@.images.push(image@), ..prev@ }));
        }
    }
}

/// An ordered set of canvases: one reading order through a manifest.
#[derive(Debug, PartialEq)]
pub struct Sequence {
    pub context: Uri,
    pub id: Uri,
    pub iiif_type: String,
    pub label: String,
    pub canvases: Vec<Canvas>,
}

impl View for Sequence {
    type V = SequenceV;

    open spec fn view(&self) -> SequenceV {
        SequenceV {
            context: self.context@,
            id: self.id@,
            iiif_type: self.iiif_type@,
            label: self.label@,
            canvases: self.canvases.deep_view(),
        }
    }
}

impl DeepView for Sequence {
    type V = SequenceV;

    open spec fn deep_view(&self) -> SequenceV {
        self.view()
    }
}

impl Sequence {
    /// The one normal sequence of an item, empty of canvases.
    pub fn new(base_urls: &BaseUrls, item_id: &str, label: &str) -> (s: Sequence)
        ensures
            s@ == (SequenceV {
                context: pres_context_uri(),
                id: sequence_uri(base_urls@.presentation, item_id@),
                iiif_type: "sc:Sequence"@,
                label: label@,
                canvases: Seq::empty(),
            }),
    {
        let mut id_value = base_urls.presentation.clone();
        id_value.append("/");
        id_value.append(item_id);
        id_value.append("/sequence/normal");
        let id = Uri::new(id_value);
        let context = Uri::new("http://iiif.io/api/presentation/2/context.json".to_owned());
        let iiif_type = "sc:Sequence".to_owned();
        let canvases: Vec<Canvas> = Vec::new();
        let label = label.to_owned();
        let s = Sequence { context, id, iiif_type, label, canvases };
        proof {
            assert(s@ =~= (SequenceV {
                context: pres_context_uri(),
                id: sequence_uri(base_urls@.presentation, item_id@),
                iiif_type: "sc:Sequence"@,
                label: label@,
                canvases: Seq::empty(),
            }));
        }
        s
    }

    /// Appends an already built canvas.
    pub fn add(&mut self, canvas: Canvas)
        ensures
            final(self)@ == (SequenceV { canvases: old(self)@.canvases.push(canvas@), ..old(self)@ }),
    {
        let ghost prev = *self;
        self.canvases.push(canvas);
        proof {
            assert(self@ =~= (SequenceV { canvases: prev@.canvases.push(canvas@), ..prev@ }));
        }
    }

    /// Appends one canvas for a classified image: the canvas index is the
    /// current number of canvases, and the canvas carries exactly one
    /// painting annotation for the image.
    pub fn add_image(
        &mut self,
        base_urls: &BaseUrls,
        item_id: &str,
        image_id: &str,
        label: &str,
        image_format: &ImageFormat,
        width: u64,
        height: u64,
    )
        ensures
            final(self)@ == (SequenceV {
                canvases: old(self)@.canvases.push(
                    canvas_with_image_v(
                        base_urls@,
                        item_id@,
                        old(self)@.canvases.len() as nat,
                        label@,
                        image_id@,
                        *image_format,
                        width,
                        height,
                    ),
                ),
                ..old(self)@
            }),
    {
        let ghost prev = *self;
        let index = self.canvases.len();
        let mut canvas = Canvas::new(base_urls, item_id, index, label, width, height);
        let image_resource = ImageResource::new(
            base_urls,
            item_id,
            image_id,
            image_format,
            width,
            height,
        );
        let annotation = Annotation::new(base_urls, Resource::Image(image_resource), canvas.id.duplicate());
        canvas.add_image(annotation);
        proof {
            assert(canvas@ =~= canvas_with_image_v(
                base_urls@,
                item_id@,
                index as nat,
                label@,
                image_id@,
                *image_format,
                width,
                height,
            ));
        }
        self.canvases.push(canvas);
        proof {
            assert(self@ =~= (SequenceV {
                canvases: prev@.canvases.push(
                    canvas_with_image_v(
                        base_urls@,
                        item_id@,
                        prev@.canvases.len() as nat,
                        label@,
                        image_id@,
                        *image_format,
                        width,
                        height,
                    ),
                ),
                ..prev@
            }));
        }
    }
}

/// The root document of one digitized object.
#[derive(Debug, PartialEq)]
pub struct Manifest {
    pub context: Uri,
    pub id: Uri,
    pub iiif_type: String,
    pub label: String,
    pub metadata: Vec<Metadata>,
    pub description: Option<String>,
    pub sequences: Vec<Sequence>,
}

impl View for Manifest {
    type V = ManifestV;

    open spec fn view(&self) -> ManifestV {
        ManifestV {
            context: self.context@,
            id: self.id@,
            iiif_type: self.iiif_type@,
            label: self.label@,
            metadata: self.metadata.deep_view(),
            description: self.description.deep_view(),
            sequences: self.sequences.deep_view(),
        }
    }
}

impl Manifest {
    /// The root document, without sequences yet: fixed context and type tag,
    /// id derived from the presentation base URL and the item identifier,
    /// label, metadata and description as supplied.
    pub fn new(
        base_urls: &BaseUrls,
        item_id: &str,
        label: &str,
        metadata: Vec<Metadata>,
        description: Option<String>,
    ) -> (m: Manifest)
        ensures
            m@ == (ManifestV {
                context: pres_context_uri(),
                id: manifest_uri(base_urls@.presentation, item_id@),
                iiif_type: "sc:Manifest"@,
                label: label@,
                metadata: metadata.deep_view(),
                description: description.deep_view(),
                sequences: Seq::empty(),
            }),
    {
        let mut id_value = base_urls.presentation.clone();
        id_value.append("/");
        id_value.append(item_id);
        id_value.append("/manifest");
        let id = Uri::new(id_value);
        let context = Uri::new("http://iiif.io/api/presentation/2/context.json".to_owned());
        let sequences: Vec<Sequence> = Vec::new();
        let m = Manifest {
            context,
            id,
            iiif_type: "sc:Manifest".to_owned(),
            label: label.to_owned(),
            metadata,
            description,
            sequences,
        };
        proof {
            assert(m@ =~~= (ManifestV {
                context: pres_context_uri(),
                id: manifest_uri(base_urls@.presentation, item_id@),
                iiif_type: "sc:Manifest"@,
                label: label@,
                metadata: m.metadata.deep_view(),
                description: m.description.deep_view(),
                sequences: Seq::empty(),
            }));
        }
        m
    }

    /// Appends an already built sequence.
    pub fn add_sequence(&mut self, sequence: Sequence)
        ensures
            final(self)@ == (ManifestV {
                sequences: old(self)@.sequences.push(sequence@),
                ..old(self)@
            }),
    {
        let ghost prev = *self;
        self.sequences.push(sequence);
        proof {
            assert(self@ =~= (ManifestV { sequences: prev@.sequences.push(sequence@), ..prev@ }));
        }
    }
}

// ---------------------------------------------------------------------------
// Well-formedness of the produced URIs.
// ---------------------------------------------------------------------------
/// An unreserved or otherwise URI-safe character, as the derivation rules use
/// them: ASCII alphanumerics and a small set of punctuation.
pub open spec fn uri_char_ok(c: char) -> bool {
    alnum_char(c) || c == '/' || c == ':' || c == '.' || c == '-' || c == '_' || c == '~'
}

/// An ASCII alphanumeric character.
pub open spec fn alnum_char(c: char) -> bool {
    ('a' <= c && c <= 'z') || ('A' <= c && c <= 'Z') || ('0' <= c && c <= '9')
}

/// A string is URI-safe when each of its characters is.
pub open spec fn uri_chars_ok(s: Seq<char>) -> bool {
    forall|i: int| 0 <= i < s.len() ==> uri_char_ok(#[trigger] s[i])
}

/// An identifier built purely from ASCII alphanumerics and characters of the
/// configured separator.
pub open spec fn id_from_alnum_and_sep(id: Seq<char>, sep: Seq<char>) -> bool {
    forall|i: int| 0 <= i < id.len() ==> alnum_char(#[trigger] id[i]) || contains_char(sep, id[i])
}

/// Concatenation preserves URI-safety.
pub proof fn lemma_uri_chars_concat(a: Seq<char>, b: Seq<char>)
    requires
        uri_chars_ok(a),
        uri_chars_ok(b),
    ensures
        uri_chars_ok(a + b),
{
    assert forall|i: int| 0 <= i < (a + b).len() implies uri_char_ok(#[trigger] (a + b)[i]) by {
        if i < a.len() {
            assert((a + b)[i] == a[i]);
        } else {
            assert((a + b)[i] == b[i - a.len()]);
        }
    }
}

proof fn lemma_dec_str_ok(n: nat)
    ensures
        uri_chars_ok(dec_str(n)),
    decreases n,
{
    if n < 10 {
        assert(uri_char_ok(dec_digit(n)));
    } else {
        lemma_dec_str_ok(n / 10);
        assert(uri_char_ok(dec_digit(n % 10)));
        lemma_uri_chars_concat(dec_str(n / 10), seq![dec_digit(n % 10)]);
    }
}

proof fn lemma_fixed_strings_ok()
    ensures
        uri_chars_ok(pres_context_uri()),
        uri_chars_ok(image_context_uri()),
        uri_chars_ok(image_profile_uri()),
        uri_chars_ok(image_protocol_uri()),
        uri_chars_ok("/"@),
        uri_chars_ok("/manifest"@),
        uri_chars_ok("/sequence/normal"@),
        uri_chars_ok("/canvas/"@),
        uri_chars_ok("/full/full/default."@),
        uri_chars_ok("jpg"@),
        uri_chars_ok("png"@),
        uri_chars_ok(""@),
{
    reveal_strlit("http://iiif.io/api/presentation/2/context.json");
    reveal_strlit("http://iiif.io/api/image/2/context.json");
    reveal_strlit("http://iiif.io/api/image/2/level2.json");
    reveal_strlit("http://iiif.io/api/image");
    reveal_strlit("/");
    reveal_strlit("/manifest");
    reveal_strlit("/sequence/normal");
    reveal_strlit("/canvas/");
    reveal_strlit("/full/full/default.");
    reveal_strlit("jpg");
    reveal_strlit("png");
    reveal_strlit("");
}

/// An identifier made of ASCII alphanumerics and characters of a URI-safe
/// separator is itself URI-safe.
pub proof fn lemma_alnum_sep_id_ok(id: Seq<char>, sep: Seq<char>)
    requires
        id_from_alnum_and_sep(id, sep),
        uri_chars_ok(sep),
    ensures
        uri_chars_ok(id),
{
    assert forall|i: int| 0 <= i < id.len() implies uri_char_ok(#[trigger] id[i]) by {
        if !alnum_char(id[i]) {
            let j = choose|j: int| 0 <= j < sep.len() && sep[j] == id[i];
            assert(uri_char_ok(sep[j]));
        }
    }
}

/// Every URI the constructors derive is well-formed — each of its characters
/// is URI-safe — whenever the two base URLs, the item identifier and the
/// image identifier consist of URI-safe characters. Together with
/// `lemma_alnum_sep_id_ok`, this covers every identifier built purely from
/// ASCII alphanumerics and a URI-safe separator.
pub proof fn lemma_produced_uris_well_formed(
    base: BaseUrlsV,
    item: Seq<char>,
    image_id: Seq<char>,
    index: nat,
    fmt: ImageFormat,
)
    requires
        uri_chars_ok(base.presentation),
        uri_chars_ok(base.image),
        uri_chars_ok(item),
        uri_chars_ok(image_id),
    ensures
        uri_chars_ok(manifest_uri(base.presentation, item)),
        uri_chars_ok(sequence_uri(base.presentation, item)),
        uri_chars_ok(canvas_uri(base.presentation, item, index)),
        uri_chars_ok(service_uri(base.image, item)),
        uri_chars_ok(image_asset_uri(base.image, item, image_id, fmt)),
        uri_chars_ok(pres_context_uri()),
        uri_chars_ok(image_context_uri()),
        uri_chars_ok(image_profile_uri()),
        uri_chars_ok(image_protocol_uri()),
{
    lemma_fixed_strings_ok();
    lemma_dec_str_ok(index);
    lemma_uri_chars_concat(base.presentation, "/"@);
    lemma_uri_chars_concat(base.presentation + "/"@, item);
    lemma_uri_chars_concat(base.presentation + "/"@ + item, "/manifest"@);
    lemma_uri_chars_concat(base.presentation + "/"@ + item, "/sequence/normal"@);
    lemma_uri_chars_concat(base.presentation + "/"@ + item, "/canvas/"@);
    lemma_uri_chars_concat(base.presentation + "/"@ + item + "/canvas/"@, dec_str(index));
    lemma_uri_chars_concat(base.image, "/"@);
    lemma_uri_chars_concat(base.image + "/"@, item);
    lemma_uri_chars_concat(base.image + "/"@ + item, "/"@);
    lemma_uri_chars_concat(base.image + "/"@ + item + "/"@, image_id);
    lemma_uri_chars_concat(
        base.image + "/"@ + item + "/"@ + image_id,
        "/full/full/default."@,
    );
    assert(uri_chars_ok(ext_spec(fmt)));
    lemma_uri_chars_concat(
        base.image + "/"@ + item + "/"@ + image_id + "/full/full/default."@,
        ext_spec(fmt),
    );
}

/// No empty path segment: `/` never stands beside another `/`.
pub open spec fn no_doubled_slash(s: Seq<char>) -> bool {
    forall|i: int| 0 <= i < s.len() - 1 ==> !((#[trigger] s[i]) == '/' && s[i + 1] == '/')
}

/// A well-formed derived path tail: it begins with exactly one `/`, does
/// not end with `/`, and contains no empty segment.
pub open spec fn path_tail_wf(t: Seq<char>) -> bool {
    &&& t.len() > 0
    &&& t[0] == '/'
    &&& t[t.len() - 1] != '/'
    &&& no_doubled_slash(t)
}

/// Concatenation keeps `/` characters apart when the seam itself does not
/// put two together.
pub proof fn lemma_no_doubled_slash_concat(a: Seq<char>, b: Seq<char>)
    requires
        no_doubled_slash(a),
        no_doubled_slash(b),
        a.len() > 0 && b.len() > 0 ==> !(a[a.len() - 1] == '/' && b[0] == '/'),
    ensures
        no_doubled_slash(a + b),
{
    assert forall|i: int| 0 <= i < (a + b).len() - 1 implies !((#[trigger] (a + b)[i]) == '/'
        && (a + b)[i + 1] == '/') by {
        if i + 1 < a.len() {
            assert((a + b)[i] == a[i]);
            assert((a + b)[i + 1] == a[i + 1]);
        } else if i < a.len() {
            assert((a + b)[i] == a[i]);
            assert((a + b)[i + 1] == b[0]);
        } else {
            assert((a + b)[i] == b[i - a.len()]);
            assert((a + b)[i + 1] == b[i + 1 - a.len()]);
        }
    }
}

proof fn lemma_slash_free_no_doubled(s: Seq<char>)
    requires
        !contains_char(s, '/'),
    ensures
        no_doubled_slash(s),
        s.len() > 0 ==> s[0] != '/',
        s.len() > 0 ==> s[s.len() - 1] != '/',
{
    assert forall|i: int| 0 <= i < s.len() - 1 implies !((#[trigger] s[i]) == '/' && s[i + 1]
        == '/') by {
        if s[i] == '/' {
            assert(contains_char(s, '/'));
        }
    }
    if s.len() > 0 {
        if s[0] == '/' {
            assert(contains_char(s, '/'));
        }
        if s[s.len() - 1] == '/' {
            assert(contains_char(s, '/'));
        }
    }
}

/// Every character of a decimal rendering is a digit, so never `/`.
proof fn lemma_dec_str_digit_chars(n: nat)
    ensures
        dec_str(n).len() > 0,
        forall|i: int|
            0 <= i < dec_str(n).len() ==> '0' <= #[trigger] dec_str(n)[i] && dec_str(n)[i] <= '9',
    decreases n,
{
    if n >= 10 {
        lemma_dec_str_digit_chars(n / 10);
        assert forall|i: int| 0 <= i < dec_str(n).len() implies '0' <= #[trigger] dec_str(n)[i]
            && dec_str(n)[i] <= '9' by {
            if i < dec_str(n / 10).len() {
                assert(dec_str(n)[i] == dec_str(n / 10)[i]);
            } else {
                assert(dec_str(n)[i] == dec_digit(n % 10));
            }
        }
    }
}

proof fn lemma_fixed_chunks_slash_shape()
    ensures
        no_doubled_slash("/"@),
        "/"@.len() == 1,
        "/"@[0] == '/',
        no_doubled_slash("/manifest"@),
        "/manifest"@.len() == 9,
        "/manifest"@[0] == '/',
        "/manifest"@[8] != '/',
        no_doubled_slash("/sequence/normal"@),
        "/sequence/normal"@.len() == 16,
        "/sequence/normal"@[0] == '/',
        "/sequence/normal"@[15] != '/',
        no_doubled_slash("/canvas/"@),
        "/canvas/"@.len() == 8,
        "/canvas/"@[0] == '/',
        "/canvas/"@[7] == '/',
        no_doubled_slash("/full/full/default."@),
        "/full/full/default."@.len() == 19,
        "/full/full/default."@[0] == '/',
        "/full/full/default."@[18] != '/',
        no_doubled_slash("jpg"@),
        "jpg"@.len() == 3,
        "jpg"@[0] != '/',
        "jpg"@[2] != '/',
        no_doubled_slash("png"@),
        "png"@.len() == 3,
        "png"@[0] != '/',
        "png"@[2] != '/',
        ""@.len() == 0,
{
    reveal_strlit("/");
    reveal_strlit("/manifest");
    reveal_strlit("/sequence/normal");
    reveal_strlit("/canvas/");
    reveal_strlit("/full/full/default.");
    reveal_strlit("jpg");
    reveal_strlit("png");
    reveal_strlit("");
}

/// The stronger shape of URI well-formedness: each derived URI is its base
/// URL followed by a path tail that begins with exactly one `/`, does not
/// end with `/`, and contains no doubled `/` — no empty path segment —
/// whenever the item and image identifiers are nonempty and free of `/`.
/// (When the classified format is unknown the asset tail ends with `.`, so
/// its last segment is still nonempty.) By `lemma_no_doubled_slash_concat`,
/// joining such a tail to a base URL that does not end with `/` creates no
/// empty segment at the seam either.
pub proof fn lemma_produced_uris_no_empty_segment(
    base: BaseUrlsV,
    item: Seq<char>,
    image_id: Seq<char>,
    index: nat,
    fmt: ImageFormat,
)
    requires
        item.len() > 0,
        !contains_char(item, '/'),
        image_id.len() > 0,
        !contains_char(image_id, '/'),
    ensures
        manifest_uri(base.presentation, item) == base.presentation + ("/"@ + item
            + "/manifest"@),
        path_tail_wf("/"@ + item + "/manifest"@),
        sequence_uri(base.presentation, item) == base.presentation + ("/"@ + item
            + "/sequence/normal"@),
        path_tail_wf("/"@ + item + "/sequence/normal"@),
        canvas_uri(base.presentation, item, index) == base.presentation + ("/"@ + item
            + "/canvas/"@ + dec_str(index)),
        path_tail_wf("/"@ + item + "/canvas/"@ + dec_str(index)),
        service_uri(base.image, item) == base.image + ("/"@ + item),
        path_tail_wf("/"@ + item),
        image_asset_uri(base.image, item, image_id, fmt) == base.image + ("/"@ + item + "/"@
            + image_id + "/full/full/default."@ + ext_spec(fmt)),
        path_tail_wf("/"@ + item + "/"@ + image_id + "/full/full/default."@ + ext_spec(fmt)),
{
    lemma_fixed_chunks_slash_shape();
    lemma_slash_free_no_doubled(item);
    lemma_slash_free_no_doubled(image_id);
    lemma_dec_str_digit_chars(index);
    let digits = dec_str(index);
    assert(!contains_char(digits, '/')) by {
        if contains_char(digits, '/') {
            let i = choose|i: int| 0 <= i < digits.len() && digits[i] == '/';
            assert('0' <= digits[i]);
        }
    }
    lemma_slash_free_no_doubled(digits);

    // The item prefix every tail starts with.
    let t_item = "/"@ + item;
    lemma_no_doubled_slash_concat("/"@, item);
    assert(t_item[0] == '/');
    assert(t_item[t_item.len() - 1] == item[item.len() - 1]);

    // Manifest and sequence tails.
    lemma_no_doubled_slash_concat(t_item, "/manifest"@);
    assert((t_item + "/manifest"@)[0] == '/');
    assert((t_item + "/manifest"@)[(t_item + "/manifest"@).len() - 1] == "/manifest"@[8]);
    lemma_no_doubled_slash_concat(t_item, "/sequence/normal"@);
    assert((t_item + "/sequence/normal"@)[0] == '/');
    assert((t_item + "/sequence/normal"@)[(t_item + "/sequence/normal"@).len() - 1]
        == "/sequence/normal"@[15]);

    // Canvas tail: the index digits end it, and a digit is not '/'.
    let t_canvas = t_item + "/canvas/"@;
    lemma_no_doubled_slash_concat(t_item, "/canvas/"@);
    lemma_no_doubled_slash_concat(t_canvas, digits);
    assert((t_canvas + digits)[0] == '/');
    assert((t_canvas + digits)[(t_canvas + digits).len() - 1] == digits[digits.len() - 1]);
    assert(canvas_uri(base.presentation, item, index) =~= base.presentation + (t_canvas
        + digits));

    // Asset tail, piece by piece.
    let t_slash = t_item + "/"@;
    lemma_no_doubled_slash_concat(t_item, "/"@);
    let t_image = t_slash + image_id;
    lemma_no_doubled_slash_concat(t_slash, image_id);
    assert(t_image[t_image.len() - 1] == image_id[image_id.len() - 1]);
    let t_default = t_image + "/full/full/default."@;
    lemma_no_doubled_slash_concat(t_image, "/full/full/default."@);
    assert(t_default[t_default.len() - 1] == "/full/full/default."@[18]);
    let t_asset = t_default + ext_spec(fmt);
    match fmt {
        ImageFormat::JPEG => {
            lemma_no_doubled_slash_concat(t_default, "jpg"@);
            assert(t_asset[t_asset.len() - 1] == "jpg"@[2]);
        },
        ImageFormat::PNG => {
            lemma_no_doubled_slash_concat(t_default, "png"@);
            assert(t_asset[t_asset.len() - 1] == "png"@[2]);
        },
        ImageFormat::Unknown => {
            assert(t_asset =~= t_default);
        },
    }
    assert(t_asset[0] == '/');
    assert(image_asset_uri(base.image, item, image_id, fmt) =~= base.image + t_asset);

    // The remaining template equalities are plain reassociations.
    assert(manifest_uri(base.presentation, item) =~= base.presentation + (t_item
        + "/manifest"@));
    assert(sequence_uri(base.presentation, item) =~= base.presentation + (t_item
        + "/sequence/normal"@));
    assert(service_uri(base.image, item) =~= base.image + t_item);
}

} // verus!
