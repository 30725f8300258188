//! The manifest assembler: resolves an identifier to a filesystem path,
//! turns one directory listing (already probed and classified by the caller)
//! plus optional sidecar metadata into a complete Manifest, and pins the
//! whole result down at the view level.

use vstd::prelude::*;

use crate::iiif::{
    canvas_with_image_v, manifest_uri, pres_context_uri, sequence_uri, BaseUrls, BaseUrlsV,
    ImageFormat, Manifest, ManifestV, Metadata, MetadataV, Sequence, SequenceV, ValueV,
};
use crate::text::{
    contains_char, lemma_mark_free_scan_of_clean, lemma_replace_round_trip, mark_free_scan,
    replace_str, replace_str_all,
};

verus! {

/// What the image classifier reports for one file.
pub struct ImageInfo {
    pub format: ImageFormat,
    pub width: u64,
    pub height: u64,
}

/// Model of a classification result.
#[verifier::ext_equal]
pub ghost struct ImageInfoV {
    pub format: ImageFormat,
    pub width: u64,
    pub height: u64,
}

impl View for ImageInfo {
    type V = ImageInfoV;

    open spec fn view(&self) -> ImageInfoV {
        ImageInfoV { format: self.format, width: self.width, height: self.height }
    }
}

impl DeepView for ImageInfo {
    type V = ImageInfoV;

    open spec fn deep_view(&self) -> ImageInfoV {
        self.view()
    }
}

/// One readable directory entry, with the classifier's answer: `None` when
/// the entry is not a classifiable image.
pub struct ScanEntry {
    pub file_name: String,
    pub image: Option<ImageInfo>,
}

/// Model of one directory entry.
#[verifier::ext_equal]
pub ghost struct ScanEntryV {
    pub file_name: Seq<char>,
    pub image: Option<ImageInfoV>,
}

impl View for ScanEntry {
    type V = ScanEntryV;

    open spec fn view(&self) -> ScanEntryV {
        ScanEntryV { file_name: self.file_name@, image: self.image.deep_view() }
    }
}

impl DeepView for ScanEntry {
    type V = ScanEntryV;

    open spec fn deep_view(&self) -> ScanEntryV {
        self.view()
    }
}

/// What the sidecar loader found beside the images: an optional free-text
/// description and an ordered list of metadata entries.
pub struct SidecarContext {
    pub description: Option<String>,
    pub metadata: Vec<Metadata>,
}

impl SidecarContext {
    /// The empty sidecar: no description, no metadata.
    pub fn empty() -> (c: SidecarContext)
        ensures
            c.description is None,
            c.metadata@.len() == 0,
    {
        SidecarContext { description: None, metadata: Vec::new() }
    }
}

/// The outcome of the sidecar loader: loaded data, no sidecar present, or a
/// failure with its reason. The assembler degrades the last two to empty
/// metadata.
pub enum SidecarResult {
    Loaded(SidecarContext),
    Absent,
    Failed(String),
}

/// What the caller observed about the resolved path before listing it.
pub enum PathStatus {
    Missing,
    NotDirectory,
    Directory,
}

/// A fatal assembly failure, carrying the resolved path it concerns.
#[derive(Debug)]
pub enum SourceError {
    PathNotFound(String),
    PathNotDirectory(String),
}

/// The identifier derived for a file inside an item:
/// `{item_id}{separator}{file_name}`, concatenated verbatim.
pub open spec fn image_id_v(item: Seq<char>, sep: Seq<char>, name: Seq<char>) -> Seq<char> {
    item + sep + name
}

/// The canvases derived from a directory listing, in listing order: one per
/// classified image, indexed by the number of canvases before it;
/// unclassifiable entries are skipped.
pub open spec fn canvases_v(
    base: BaseUrlsV,
    item: Seq<char>,
    sep: Seq<char>,
    entries: Seq<ScanEntryV>,
) -> Seq<crate::iiif::CanvasV>
    decreases entries.len(),
{
    if entries.len() == 0 {
        Seq::empty()
    } else {
        let prefix = canvases_v(base, item, sep, entries.drop_last());
        let e = entries.last();
        match e.image {
            Some(info) => prefix.push(
                canvas_with_image_v(
                    base,
                    item,
                    prefix.len() as nat,
                    e.file_name,
                    image_id_v(item, sep, e.file_name),
                    info.format,
                    info.width,
                    info.height,
                ),
            ),
            None => prefix,
        }
    }
}

/// The metadata entries the sidecar contributes: its own list when it
/// loaded, nothing otherwise.
pub open spec fn effective_metadata(sidecar: SidecarResult) -> Seq<MetadataV> {
    match sidecar {
        SidecarResult::Loaded(c) => c.metadata.deep_view(),
        SidecarResult::Absent => Seq::empty(),
        SidecarResult::Failed(_) => Seq::empty(),
    }
}

/// The manifest description: the sidecar's, or the item identifier itself
/// when the sidecar supplies none — never empty.
pub open spec fn effective_description(sidecar: SidecarResult, item: Seq<char>) -> Seq<char> {
    match sidecar {
        SidecarResult::Loaded(c) => match c.description {
            Some(d) => d@,
            None => item,
        },
        SidecarResult::Absent => item,
        SidecarResult::Failed(_) => item,
    }
}

/// The synthetic metadata entry recording the resolved identifier.
pub open spec fn location_entry_v(item: Seq<char>) -> MetadataV {
    MetadataV { label: "location"@, value: ValueV::Single(item) }
}

/// The complete manifest derived from one directory listing and one sidecar
/// outcome.
pub open spec fn manifest_v_for(
    base: BaseUrlsV,
    item: Seq<char>,
    sep: Seq<char>,
    entries: Seq<ScanEntryV>,
    sidecar: SidecarResult,
) -> ManifestV {
    ManifestV {
        context: pres_context_uri(),
        id: manifest_uri(base.presentation, item),
        iiif_type: "sc:Manifest"@,
        label: item,
        metadata: effective_metadata(sidecar).push(location_entry_v(item)),
        description: Some(effective_description(sidecar, item)),
        sequences: seq![
            SequenceV {
                context: pres_context_uri(),
                id: sequence_uri(base.presentation, item),
                iiif_type: "sc:Sequence"@,
                label: item,
                canvases: canvases_v(base, item, sep, entries),
            },
        ],
    }
}

/// Locates directories for identifiers and assembles their manifests.
pub struct ManifestSource {
    pub base_path: String,
    pub base_urls: BaseUrls,
    pub path_sep: String,
}

/// The filesystem path an identifier resolves to: the source root, a path
/// separator, and the identifier with every occurrence of the configured
/// separator replaced by the path separator.
pub open spec fn resolved_path(base_path: Seq<char>, sep: Seq<char>, id: Seq<char>) -> Seq<char> {
    base_path + "/"@ + replace_str(id, sep, "/"@)
}

impl ManifestSource {
    /// A well-formed source has a nonempty identifier separator.
    pub open spec fn wf(&self) -> bool {
        self.path_sep@.len() > 0
    }

    /// A manifest source over one source root, one base-URL configuration
    /// and one identifier separator.
    pub fn new(base_path: String, base_urls: BaseUrls, path_sep: String) -> (s: ManifestSource)
        requires
            path_sep@.len() > 0,
        ensures
            s.wf(),
            s.base_path@ == base_path@,
            s.base_urls@ == base_urls@,
            s.path_sep@ == path_sep@,
    {
        ManifestSource { base_path, base_urls, path_sep }
    }

    /// Decodes an identifier into the filesystem path it names.
    pub fn path_for_id(&self, id: &str) -> (p: String)
        requires
            self.wf(),
        ensures
            p@ == resolved_path(self.base_path@, self.path_sep@, id@),
    {
        let decoded = replace_str_all(id, self.path_sep.as_str(), "/");
        let mut p = self.base_path.clone();
        p.append("/");
        p.append(decoded.as_str());
        proof {
            assert(p@ =~= resolved_path(self.base_path@, self.path_sep@, id@));
        }
        p
    }

    /// Encodes the identifier of a file inside an item: parent identifier,
    /// separator and file name, concatenated verbatim.
    pub fn encode_id(&self, item_id: &str, file_name: &str) -> (r: String)
        ensures
            r@ == image_id_v(item_id@, self.path_sep@, file_name@),
    {
        let mut r = item_id.to_owned();
        r.append(self.path_sep.as_str());
        r.append(file_name);
        proof {
            assert(r@ =~= image_id_v(item_id@, self.path_sep@, file_name@));
        }
        r
    }

    /// Assembles the manifest for one item from what the collaborators
    /// observed: the probed status of the resolved path, the readable
    /// directory entries with their classification, and the sidecar
    /// outcome. A missing path and a non-directory path are the only
    /// failures; everything else degrades and still yields a manifest.
    pub fn manifest_for(
        &self,
        item_id: &str,
        status: PathStatus,
        entries: Vec<ScanEntry>,
        sidecar: SidecarResult,
    ) -> (r: Result<Manifest, SourceError>)
        requires
            self.wf(),
        ensures
            match r {
                Ok(m) => status is Directory && m@ == manifest_v_for(
                    self.base_urls@,
                    item_id@,
                    self.path_sep@,
                    entries.deep_view(),
                    sidecar,
                ),
                Err(e) => match e {
                    SourceError::PathNotFound(p) => status is Missing && p@ == resolved_path(
                        self.base_path@,
                        self.path_sep@,
                        item_id@,
                    ),
                    SourceError::PathNotDirectory(p) => status is NotDirectory && p@
                        == resolved_path(self.base_path@, self.path_sep@, item_id@),
                },
            },
    {
        let source_path = self.path_for_id(item_id);
        match status {
            PathStatus::Missing => {
                return Err(SourceError::PathNotFound(source_path));
            },
            PathStatus::NotDirectory => {
                return Err(SourceError::PathNotDirectory(source_path));
            },
            PathStatus::Directory => {},
        }

        let (side_description, mut metadata): (Option<String>, Vec<Metadata>) = match sidecar {
            SidecarResult::Loaded(SidecarContext { description, metadata }) => (
                description,
                metadata,
            ),
            SidecarResult::Absent => (None, Vec::new()),
            SidecarResult::Failed(_) => (None, Vec::new()),
        };

        let mut sequence = Sequence::new(&self.base_urls, item_id, item_id);
        let ghost entries_v = entries.deep_view();
        let mut i: usize = 0;
        proof {
            assert(entries_v.take(0) =~= Seq::<ScanEntryV>::empty());
        }
        while i < entries.len()
            invariant
                i <= entries.len(),
                self.wf(),
                entries_v == entries.deep_view(),
                sequence@ == (SequenceV {
                    context: pres_context_uri(),
                    id: sequence_uri(self.base_urls@.presentation, item_id@),
                    iiif_type: "sc:Sequence"@,
                    label: item_id@,
                    canvases: canvases_v(
                        self.base_urls@,
                        item_id@,
                        self.path_sep@,
                        entries_v.take(i as int),
                    ),
                }),
            decreases entries.len() - i,
        {
            let entry = &entries[i];
            match entry.image {
                Some(ref info) => {
                    let image_id = self.encode_id(item_id, entry.file_name.as_str());
                    sequence.add_image(
                        &self.base_urls,
                        item_id,
                        image_id.as_str(),
                        entry.file_name.as_str(),
                        &info.format,
                        info.width,
                        info.height,
                    );
                },
                None => {},
            }
            proof {
                assert(entries_v.take(i + 1).drop_last() =~= entries_v.take(i as int));
                assert(entries_v.take(i + 1).last() == entries_v[i as int]);
                assert(entries_v[i as int] == entries[i as int].deep_view());
                assert(sequence@.canvases =~= canvases_v(
                    self.base_urls@,
                    item_id@,
                    self.path_sep@,
                    entries_v.take(i + 1),
                ));
            }
            i = i + 1;
        }
        proof {
            assert(entries_v.take(entries.len() as int) =~= entries_v);
        }

        let description: Option<String> = match side_description {
            Some(d) => Some(d),
            None => Some(item_id.to_owned()),
        };
        metadata.push(Metadata::key_value("location", item_id));
        proof {
            assert(metadata.deep_view() =~= effective_metadata(sidecar).push(
                location_entry_v(item_id@),
            ));
        }

        let mut manifest = Manifest::new(&self.base_urls, item_id, item_id, metadata, description);
        manifest.add_sequence(sequence);
        proof {
            assert(manifest@ =~~= manifest_v_for(
                self.base_urls@,
                item_id@,
                self.path_sep@,
                entries.deep_view(),
                sidecar,
            ));
        }
        Ok(manifest)
    }
}

// ---------------------------------------------------------------------------
// Laws of the assembler.
// ---------------------------------------------------------------------------
/// Round trip of the identifier/path codec: decoding an identifier (every
/// separator occurrence becomes the path separator `/`) and encoding the
/// result back (every `/` becomes the separator) restores the identifier,
/// whenever no path segment of the identifier — no chunk between the
/// separator occurrences that decoding replaces — contains `/`. Separators
/// that themselves contain `/` are admitted.
pub proof fn lemma_id_path_round_trip(id: Seq<char>, sep: Seq<char>)
    requires
        sep.len() > 0,
        mark_free_scan(id, sep, '/'),
    ensures
        replace_str(replace_str(id, sep, "/"@), "/"@, sep) == id,
{
    reveal_strlit("/");
    assert("/"@ =~= seq!['/']);
    lemma_replace_round_trip(id, sep, "/"@);
}

/// In particular, an identifier containing no `/` at all round-trips, for
/// every nonempty separator.
pub proof fn lemma_id_path_round_trip_slashless(id: Seq<char>, sep: Seq<char>)
    requires
        sep.len() > 0,
        !contains_char(id, '/'),
    ensures
        replace_str(replace_str(id, sep, "/"@), "/"@, sep) == id,
{
    lemma_mark_free_scan_of_clean(id, sep, '/');
    lemma_id_path_round_trip(id, sep);
}

/// The identifier encoded for a file — parent identifier, separator and file
/// name concatenated — is URI-safe whenever each part is, so every image id
/// the assembler derives stays within `lemma_produced_uris_well_formed`.
pub proof fn lemma_encoded_id_uri_safe(item: Seq<char>, sep: Seq<char>, name: Seq<char>)
    requires
        crate::iiif::uri_chars_ok(item),
        crate::iiif::uri_chars_ok(sep),
        crate::iiif::uri_chars_ok(name),
    ensures
        crate::iiif::uri_chars_ok(image_id_v(item, sep, name)),
{
    crate::iiif::lemma_uri_chars_concat(item, sep);
    crate::iiif::lemma_uri_chars_concat(item + sep, name);
}

/// Determinism: one directory listing and one sidecar outcome determine the
/// manifest completely, so two requests over the same unmodified directory
/// produce identical documents.
pub proof fn lemma_manifest_deterministic(
    base: BaseUrlsV,
    item: Seq<char>,
    sep: Seq<char>,
    entries: Seq<ScanEntryV>,
    sidecar: SidecarResult,
    m1: ManifestV,
    m2: ManifestV,
)
    requires
        m1 == manifest_v_for(base, item, sep, entries, sidecar),
        m2 == manifest_v_for(base, item, sep, entries, sidecar),
    ensures
        m1 == m2,
{
}

/// A directory with no classifiable images yields a manifest whose one
/// sequence has an empty canvas list — not an error.
pub proof fn lemma_no_images_empty_canvases(
    base: BaseUrlsV,
    item: Seq<char>,
    sep: Seq<char>,
    entries: Seq<ScanEntryV>,
    sidecar: SidecarResult,
)
    requires
        forall|i: int| 0 <= i < entries.len() ==> entries[i].image is None,
    ensures
        manifest_v_for(base, item, sep, entries, sidecar).sequences.len() == 1,
        manifest_v_for(base, item, sep, entries, sidecar).sequences[0].canvases.len() == 0,
    decreases entries.len(),
{
    if entries.len() > 0 {
        assert(forall|i: int|
            0 <= i < entries.drop_last().len() ==> entries.drop_last()[i].image is None);
        lemma_no_images_empty_canvases(base, item, sep, entries.drop_last(), sidecar);
    }
}

/// Sidecar metadata appears in the output in its original order, followed
/// immediately by exactly one synthetic `location` entry whose value is the
/// resolved root identifier.
pub proof fn lemma_metadata_order(
    base: BaseUrlsV,
    item: Seq<char>,
    sep: Seq<char>,
    entries: Seq<ScanEntryV>,
    sidecar: SidecarResult,
)
    ensures
        manifest_v_for(base, item, sep, entries, sidecar).metadata.len() == effective_metadata(
            sidecar,
        ).len() + 1,
        forall|i: int|
            0 <= i < effective_metadata(sidecar).len() ==> manifest_v_for(
                base,
                item,
                sep,
                entries,
                sidecar,
            ).metadata[i] == effective_metadata(sidecar)[i],
        manifest_v_for(base, item, sep, entries, sidecar).metadata.last() == location_entry_v(item),
{
}

} // verus!
