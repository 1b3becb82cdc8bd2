//! The state of the converter window and the decisions it takes: which files are
//! loaded, where output goes, what job a conversion runs, and what the user is told.
use vstd::prelude::*;

use crate::codec::static_codec::{extension_text, TargetFormat};
use crate::converter::{AsyncConverter, ConvertEvent, ConvertItem, ConvertJob};
use crate::frame::Frame;
use crate::i18n::{Language, Loc};
use crate::paths::{
    joined, last_dot, last_slash, leaf_dir, leaf_of, leaf_path, lemma_last_slash_bounds,
    parent_known, parent_of, path_file_stem, path_join, path_parent, path_syntax_char, path_with_extension,
    plain_name, portable, same_path, canonical, stem_of, trim_text, trimmed,
};
use crate::text::{decimal, decimal_text};

verus! {

/// What closing the window does.
#[derive(Clone, Copy, Debug, PartialEq, Eq, Structural)]
pub enum CloseAction {
    Quit,
    Minimize,
}

/// A loaded input file: its path, its frames and its size in bytes.
pub struct ImportedImage {
    pub path: String,
    pub frames: Vec<Frame>,
    pub file_size: u64,
}

/// The converter window's state.
pub struct RustImageApp {
    pub imported_images: Vec<ImportedImage>,
    pub target_format: TargetFormat,
    pub compression_enabled: bool,
    pub compression_quality: u8,
    pub merge_into_animation: bool,
    pub custom_delay_ms: Option<u32>,
    pub repeat_count: u32,
    pub destination_text: String,
    pub manual_destination: bool,
    pub converter: AsyncConverter,
    pub context_menu_active: bool,
    pub close_action: CloseAction,
    /// The message shown to the user and whether it reports an error.
    pub status_message: Option<(String, bool)>,
    pub output_files: Vec<String>,
    pub language: Language,
}

/// A conversion to run: the job, and the folder to create first (for a batch it must
/// be created; for one file only if possible).
pub struct ConversionRequest {
    pub folder: Option<String>,
    pub folder_required: bool,
    pub job: ConvertJob,
}

/// Whether a format holds animations.
pub open spec fn animated(f: TargetFormat) -> bool {
    f == TargetFormat::Gif || f == TargetFormat::Apng
}

/// The name of the file written for one output: the stem (or "animation_merged" when
/// all inputs are merged into one animation, or the input's stem followed by
/// "_converted", "output" standing in for a missing stem), a dot and the extension.
pub open spec fn single_output_name(merged: bool, stem: Option<Seq<char>>, ext: Seq<char>) -> Seq<char> {
    let base = if merged {
        "animation_merged"@
    } else {
        match stem {
            Some(s) => s + "_converted"@,
            None => "output"@ + "_converted"@,
        }
    };
    base + "."@ + ext
}

/// The name of the file written for one input of a batch: its stem ("converted" when
/// it has none), "_converted" when the plain name would overwrite the input, a dot
/// and the extension.
pub open spec fn batch_output_name(stem: Option<Seq<char>>, clash: bool, ext: Seq<char>) -> Seq<char> {
    let s = match stem {
        Some(s) => s,
        None => "converted"@,
    };
    if clash {
        s + "_converted"@ + "."@ + ext
    } else {
        s + "."@ + ext
    }
}

/// The file name of a single output (see `single_output_name`).
pub fn single_output_file_name(merged: bool, stem: Option<&str>, ext: &str) -> (name: String)
    ensures
        name@ == single_output_name(merged, match stem { Some(s) => Some(s@), None => None }, ext@),
{
    let mut name = String::new();
    if merged {
        name.append("animation_merged");
    } else {
        match stem {
            Some(s) => name.append(s),
            None => name.append("output"),
        }
        name.append("_converted");
    }
    name.append(".");
    name.append(ext);
    proof {
        assert(name@ =~= single_output_name(merged, match stem { Some(s) => Some(s@), None => None }, ext@));
    }
    name
}

/// The file name of one batch output (see `batch_output_name`).
pub fn batch_output_file_name(stem: Option<&str>, clash: bool, ext: &str) -> (name: String)
    ensures
        name@ == batch_output_name(match stem { Some(s) => Some(s@), None => None }, clash, ext@),
{
    let mut name = String::new();
    match stem {
        Some(s) => name.append(s),
        None => name.append("converted"),
    }
    if clash {
        name.append("_converted");
    }
    name.append(".");
    name.append(ext);
    proof {
        assert(name@ =~= batch_output_name(match stem { Some(s) => Some(s@), None => None }, clash, ext@));
    }
    name
}

/// Whether a text holds no separator or prefix character.
pub open spec fn free_of_path_syntax(s: Seq<char>) -> bool {
    forall|i: int| 0 <= i < s.len() ==> !path_syntax_char(#[trigger] s[i])
}

/// The stem of a bare file name is nonempty and holds no separator or prefix
/// character.
proof fn lemma_stem_of_plain(name: Seq<char>)
    requires
        plain_name(name),
    ensures
        stem_of(name).len() > 0,
        free_of_path_syntax(stem_of(name)),
    decreases name.len(),
{
    lemma_last_dot_bounds(name);
    if last_dot(name) > 0 {
        assert forall|i: int| 0 <= i < stem_of(name).len() implies !path_syntax_char(#[trigger] stem_of(name)[i]) by {
            assert(stem_of(name)[i] == name[i]);
        }
    }
}

/// The last '.' of a text lies inside it.
proof fn lemma_last_dot_bounds(s: Seq<char>)
    ensures
        -1 <= last_dot(s) < s.len(),
    decreases s.len(),
{
    if s.len() > 0 && s.last() != '.' {
        lemma_last_dot_bounds(s.drop_last());
    }
}

/// Every output extension is a nonempty text of letters, ending in no '.'.
proof fn lemma_extension_plain(f: TargetFormat)
    ensures
        extension_text(f).len() > 0,
        free_of_path_syntax(extension_text(f)),
        extension_text(f).last() != '.',
{
    reveal_strlit("png");
    reveal_strlit("jpg");
    reveal_strlit("webp");
    reveal_strlit("gif");
    reveal_strlit("apng");
    reveal_strlit("bmp");
    reveal_strlit("ico");
    reveal_strlit("tiff");
    reveal_strlit("tga");
    reveal_strlit("svg");
}

/// The name of a single output built from a stem without path syntax and an output
/// extension is a bare file name.
proof fn lemma_single_name_plain(merged: bool, stem: Seq<char>, f: TargetFormat)
    requires
        free_of_path_syntax(stem),
    ensures
        plain_name(single_output_name(merged, Some(stem), extension_text(f))),
{
    reveal_strlit("animation_merged");
    reveal_strlit("_converted");
    reveal_strlit(".");
    lemma_extension_plain(f);
    let ext = extension_text(f);
    let base = if merged { "animation_merged"@ } else { stem + "_converted"@ };
    assert(free_of_path_syntax(base));
    let name = single_output_name(merged, Some(stem), ext);
    assert(name == base + "."@ + ext);
    assert(free_of_path_syntax(name)) by {
        assert forall|i: int| 0 <= i < name.len() implies !path_syntax_char(#[trigger] name[i]) by {
            if i < base.len() {
                assert(name[i] == base[i]);
            } else if i == base.len() {
                assert(name[i] == '.');
            } else {
                assert(name[i] == ext[i - base.len() - 1]);
            }
        }
    }
    assert(name.last() == ext.last());
}

/// The file or folder name that the default destination of `app` ends with: the
/// folder "converted" for a batch, else the single output's name for the stem of the
/// first input's file name (see `compute_default_destination`).
pub open spec fn default_name(app: RustImageApp) -> Seq<char> {
    if app.batch_mode() {
        "converted"@
    } else {
        single_output_name(
            app.merging(),
            Some(stem_of(leaf_of(app.imported_images@[0].path@))),
            extension_text(app.target_format),
        )
    }
}

/// What holds on every platform of `d`, the default destination of `app`: empty
/// without inputs; `default_name` joined to the first input's parent when every
/// platform reads that parent alike (`parent_known`). (Other paths are split by the
/// platform's path syntax.)
pub open spec fn default_destination_of(app: RustImageApp, d: Seq<char>) -> bool {
    &&& app.imported_images@.len() == 0 ==> d.len() == 0
    &&& app.imported_images@.len() > 0 && parent_known(app.imported_images@[0].path@)
        ==> joined(parent_of(app.imported_images@[0].path@), default_name(app), d)
}

/// The parent of a path whose parent every platform reads alike is `portable`.
proof fn lemma_parent_portable(p: Seq<char>)
    requires
        parent_known(p),
    ensures
        portable(parent_of(p)),
{
    lemma_last_slash_bounds(p);
    if last_slash(p) > 0 {
        let d = p.subrange(0, last_slash(p));
        if d.len() >= 2 {
            assert(d[0] == p[0] && d[1] == p[1]);
        }
    }
}

/// Whether `d` is the destination a conversion of `app` writes to: the trimmed
/// destination text, or the default destination when that is blank.
pub open spec fn conversion_destination(app: RustImageApp, d: Seq<char>) -> bool {
    if trimmed(app.destination_text@).len() != 0 {
        d == trimmed(app.destination_text@)
    } else {
        default_destination_of(app, d)
    }
}

/// Whether `out` names the batch output of an input whose stem is `stem`: the
/// destination folder joined with `batch_output_name`, plain or marked "_converted"
/// (the mark is set when the plain name is the input's own path).
pub open spec fn batch_target(out: Seq<char>, folder: Seq<char>, stem: Seq<char>, ext: Seq<char>) -> bool {
    ||| joined(folder, batch_output_name(Some(stem), false, ext), out)
    ||| joined(folder, batch_output_name(Some(stem), true, ext), out)
}

/// The name of a batch output built from a stem without path syntax and an output
/// extension is a bare file name.
proof fn lemma_batch_name_plain(stem: Seq<char>, clash: bool, f: TargetFormat)
    requires
        free_of_path_syntax(stem),
    ensures
        plain_name(batch_output_name(Some(stem), clash, extension_text(f))),
{
    reveal_strlit("_converted");
    reveal_strlit(".");
    lemma_extension_plain(f);
    let ext = extension_text(f);
    let base = if clash { stem + "_converted"@ } else { stem };
    assert(free_of_path_syntax(base));
    let name = batch_output_name(Some(stem), clash, ext);
    assert(name =~= base + "."@ + ext);
    assert(free_of_path_syntax(name)) by {
        assert forall|i: int| 0 <= i < name.len() implies !path_syntax_char(#[trigger] name[i]) by {
            if i < base.len() {
                assert(name[i] == base[i]);
            } else if i == base.len() {
                assert(name[i] == '.');
            } else {
                assert(name[i] == ext[i - base.len() - 1]);
            }
        }
    }
    assert(name.last() == ext.last());
}

/// Whether two frame sequences show the same images for the same delays.
pub open spec fn same_frames(a: Seq<Frame>, b: Seq<Frame>) -> bool {
    &&& a.len() == b.len()
    &&& forall|i: int| 0 <= i < a.len() ==> {
        &&& (#[trigger] a[i]).image.spec_pixels() == b[i].image.spec_pixels()
        &&& a[i].image.same_size(&b[i].image)
        &&& a[i].delay_ms == b[i].delay_ms
    }
}

/// The frames of all inputs, one input after the other.
pub open spec fn all_frames(images: Seq<ImportedImage>) -> Seq<Frame>
    decreases images.len(),
{
    if images.len() == 0 {
        Seq::empty()
    } else {
        all_frames(images.drop_last()) + images.last().frames@
    }
}

/// Whether no path is listed twice.
pub open spec fn distinct_paths(s: Seq<String>) -> bool {
    forall|i: int, j: int| 0 <= i < s.len() && 0 <= j < s.len() && i != j ==> s[i]@ != s[j]@
}

/// The list `old` with the paths of `items` that it does not hold yet appended in
/// their order, each once (compared as text).
pub open spec fn with_new_paths(old: Seq<String>, items: Seq<String>) -> Seq<String>
    decreases items.len(),
{
    if items.len() == 0 {
        old
    } else {
        let prev = with_new_paths(old, items.drop_last());
        if exists|i: int| 0 <= i < prev.len() && (#[trigger] prev[i])@ == items.last()@ {
            prev
        } else {
            prev.push(items.last())
        }
    }
}

/// Adding one path appends it unless it is listed already.
proof fn lemma_new_path_one(old: Seq<String>, p: String)
    ensures
        with_new_paths(old, seq![p]) == (if exists|i: int| 0 <= i < old.len() && (#[trigger] old[i])@ == p@ {
            old
        } else {
            old.push(p)
        }),
{
    reveal_with_fuel(with_new_paths, 2);
    assert(seq![p].drop_last() =~= Seq::<String>::empty());
    assert(seq![p].last() == p);
    assert(with_new_paths(old, Seq::<String>::empty()) == old);
}

/// Listing written files keeps a list free of repeated paths: appending the paths of
/// `items` not yet listed leaves the earlier entries first and in place, and repeats
/// none.
pub proof fn lemma_new_paths_distinct(old: Seq<String>, items: Seq<String>)
    requires
        distinct_paths(old),
    ensures
        distinct_paths(with_new_paths(old, items)),
        with_new_paths(old, items).len() >= old.len(),
        with_new_paths(old, items).subrange(0, old.len() as int) == old,
    decreases items.len(),
{
    if items.len() > 0 {
        lemma_new_paths_distinct(old, items.drop_last());
        let prev = with_new_paths(old, items.drop_last());
        if !(exists|i: int| 0 <= i < prev.len() && (#[trigger] prev[i])@ == items.last()@) {
            let next = prev.push(items.last());
            assert(next.subrange(0, old.len() as int) =~= prev.subrange(0, old.len() as int));
            assert forall|i: int, j: int| 0 <= i < next.len() && 0 <= j < next.len() && i != j implies next[i]@ != next[j]@ by {
                if i < prev.len() && j < prev.len() {
                    assert(next[i] == prev[i] && next[j] == prev[j]);
                } else if i < prev.len() {
                    assert(next[i] == prev[i]);
                } else {
                    assert(next[j] == prev[j]);
                }
            }
        }
    }
}

/// Whether `new` is `old` followed by entries of `src` picked at the increasing
/// positions `idx`.
pub open spec fn picks(old: Seq<String>, new: Seq<String>, src: Seq<String>, idx: Seq<int>) -> bool {
    &&& new.len() == old.len() + idx.len()
    &&& new.subrange(0, old.len() as int) == old
    &&& forall|k: int| 0 <= k < idx.len() ==> 0 <= #[trigger] idx[k] < src.len() && new[old.len() + k] == src[idx[k]]
    &&& forall|k: int, l: int| 0 <= k < l < idx.len() ==> #[trigger] idx[k] < #[trigger] idx[l]
}

/// Whether `new` is `old` followed by some of the entries of `src`, in their order.
pub open spec fn appends_in_order(old: Seq<String>, new: Seq<String>, src: Seq<String>) -> bool {
    exists|idx: Seq<int>| #[trigger] picks(old, new, src, idx)
}

/// Whether every path is `canonical`.
pub open spec fn all_canonical(s: Seq<String>) -> bool {
    forall|i: int| 0 <= i < s.len() ==> canonical(#[trigger] s[i]@)
}

/// The message after a job with errors.
pub open spec fn errors_message(n: nat) -> Seq<char> {
    "Completed with "@ + decimal(n) + " error(s)"@
}

/// Copies of frames.
pub fn copy_frames(frames: &Vec<Frame>) -> (out: Vec<Frame>)
    ensures
        same_frames(out@, frames@),
        forall|i: int| 0 <= i < out@.len() ==> (#[trigger] out@[i]).image.well_formed(),
{
    let mut out: Vec<Frame> = Vec::new();
    let n = frames.len();
    let mut i: usize = 0;
    while i < n
        invariant
            i <= n,
            n == frames@.len(),
            same_frames(out@, frames@.subrange(0, i as int)),
            forall|j: int| 0 <= j < out@.len() ==> (#[trigger] out@[j]).image.well_formed(),
        decreases n - i,
    {
        out.push(frames[i].duplicate());
        i = i + 1;
    }
    assert(frames@.subrange(0, n as int) =~= frames@);
    out
}

impl RustImageApp {
    /// The window as it opens: no input, PNG output, compression off at quality 80,
    /// no custom delay, endless repeat, English, quitting on close.
    pub fn new(context_menu_active: bool) -> (app: RustImageApp)
        ensures
            app.imported_images@.len() == 0,
            app.target_format == TargetFormat::Png,
            !app.compression_enabled,
            app.compression_quality == 80,
            !app.merge_into_animation,
            app.custom_delay_ms is None,
            app.repeat_count == 0,
            app.destination_text@.len() == 0,
            !app.manual_destination,
            !app.converter.receiving && !app.converter.is_converting && app.converter.progress is None,
            app.context_menu_active == context_menu_active,
            app.close_action == CloseAction::Quit,
            app.status_message is None,
            app.output_files@.len() == 0,
            app.language == Language::English,
    {
        RustImageApp {
            imported_images: Vec::new(),
            target_format: TargetFormat::Png,
            compression_enabled: false,
            compression_quality: 80,
            merge_into_animation: false,
            custom_delay_ms: None,
            repeat_count: 0,
            destination_text: String::new(),
            manual_destination: false,
            converter: AsyncConverter::new(),
            context_menu_active,
            close_action: CloseAction::Quit,
            status_message: None,
            output_files: Vec::new(),
            language: Language::English,
        }
    }

    /// Whether the inputs are converted one file each: more than one input, and not
    /// merged into one animation.
    pub open spec fn batch_mode(&self) -> bool {
        self.imported_images@.len() > 1 && !(self.merge_into_animation && animated(self.target_format))
    }

    /// Whether the inputs are merged into one animation.
    pub open spec fn merging(&self) -> bool {
        self.merge_into_animation && animated(self.target_format)
    }

    /// Whether the inputs are converted one file each (see `batch_mode`).
    pub fn is_batch_mode(&self) -> (b: bool)
        ensures
            b == self.batch_mode(),
    {
        self.imported_images.len() > 1 && !(self.merge_into_animation && self.target_format.is_animated())
    }

    /// The destination offered when the user has chosen none: for a batch, the folder
    /// "converted" beside the first input; otherwise a file beside the first input
    /// named by `single_output_name`; empty without inputs or when the first input's
    /// path has no parent.
    pub fn compute_default_destination(&self) -> (d: String)
        ensures
            default_destination_of(*self, d@),
    {
        if self.imported_images.len() == 0 {
            return String::new();
        }
        let first = self.imported_images[0].path.as_str();
        match path_parent(first) {
            Some(parent) => {
                if self.is_batch_mode() {
                    proof {
                        reveal_strlit("converted");
                        if parent_known(first@) {
                            lemma_parent_portable(first@);
                            assert("converted"@ =~= seq!['c', 'o', 'n', 'v', 'e', 'r', 't', 'e', 'd']);
                            assert(plain_name("converted"@));
                        }
                    }
                    path_join(parent.as_str(), "converted")
                } else {
                    let merged = self.merge_into_animation && self.target_format.is_animated();
                    let stem = path_file_stem(first);
                    let stem_text: Option<&str> = match &stem {
                        Some(s) => Some(s.as_str()),
                        None => None,
                    };
                    let name = single_output_file_name(merged, stem_text, self.target_format.extension());
                    proof {
                        if parent_known(first@) {
                            lemma_parent_portable(first@);
                            lemma_stem_of_plain(leaf_of(first@));
                            lemma_single_name_plain(merged, stem_of(leaf_of(first@)), self.target_format);
                        }
                    }
                    path_join(parent.as_str(), name.as_str())
                }
            },
            None => String::new(),
        }
    }

    /// Brings the destination in line with the inputs and the format: the default
    /// destination unless the user chose one (an all-blank choice counts as none);
    /// a chosen single-file destination gets the format's extension.
    pub fn sync_destination_if_needed(&mut self)
        ensures
            final(self).imported_images == old(self).imported_images,
            final(self).target_format == old(self).target_format,
            final(self).merge_into_animation == old(self).merge_into_animation,
            final(self).manual_destination == old(self).manual_destination,
            final(self).status_message == old(self).status_message,
            final(self).output_files == old(self).output_files,
            !old(self).manual_destination || trimmed(old(self).destination_text@).len() == 0
                ==> default_destination_of(*old(self), final(self).destination_text@),
            old(self).manual_destination && trimmed(old(self).destination_text@).len() != 0
                && old(self).batch_mode() ==> final(self).destination_text == old(self).destination_text,
            old(self).manual_destination && trimmed(old(self).destination_text@).len() != 0
                && !old(self).batch_mode() && leaf_path(old(self).destination_text@)
                ==> final(self).destination_text@ == leaf_dir(old(self).destination_text@)
                + stem_of(leaf_of(old(self).destination_text@)) + "."@ + extension_text(old(self).target_format),
    {
        let blank = trim_text(self.destination_text.as_str()).unicode_len() == 0;
        if !self.manual_destination || blank {
            self.destination_text = self.compute_default_destination();
        } else if !self.is_batch_mode() {
            proof {
                lemma_extension_plain(self.target_format);
            }
            let updated = path_with_extension(self.destination_text.as_str(), self.target_format.extension());
            self.destination_text = updated;
        }
    }

    /// Forgets all inputs, the destination and the message.
    pub fn clear_input(&mut self)
        ensures
            final(self).imported_images@.len() == 0,
            final(self).destination_text@.len() == 0,
            !final(self).manual_destination,
            final(self).status_message is None,
            final(self).output_files == old(self).output_files,
            final(self).target_format == old(self).target_format,
            final(self).custom_delay_ms == old(self).custom_delay_ms,
    {
        self.imported_images.clear();
        self.destination_text = String::new();
        self.manual_destination = false;
        self.status_message = None;
    }

    /// Whether an input with this path is loaded already (compared as paths; equal
    /// text always counts).
    pub fn contains_image(&self, path: &str) -> (found: bool)
        ensures
            (exists|i: int| 0 <= i < self.imported_images@.len() && (#[trigger] self.imported_images@[i]).path@ == path@) ==> found,
            found && canonical(path@) ==> exists|i: int|
                0 <= i < self.imported_images@.len() && ((#[trigger] self.imported_images@[i]).path@ == path@
                    || !canonical(self.imported_images@[i].path@)),
    {
        let n = self.imported_images.len();
        let mut i: usize = 0;
        while i < n
            invariant
                i <= n,
                n == self.imported_images@.len(),
                forall|j: int| 0 <= j < i ==> (#[trigger] self.imported_images@[j]).path@ != path@,
            decreases n - i,
        {
            if same_path(self.imported_images[i].path.as_str(), path) {
                assert(self.imported_images@[i as int].path@ == path@ || !canonical(self.imported_images@[i as int].path@)
                    || !canonical(path@));
                return true;
            }
            i = i + 1;
        }
        false
    }

    /// Adds a loaded input after the others.
    pub fn add_image(&mut self, image: ImportedImage)
        ensures
            final(self).imported_images@ == old(self).imported_images@.push(image),
    {
        self.imported_images.push(image);
    }

    /// Reports that the input at `path` could not be loaded.
    pub fn report_load_error(&mut self, path: &str, message: &str)
        ensures
            final(self).status_message matches Some((m, true)) && m@ == "Error loading "@ + path@ + ": "@ + message@,
            final(self).imported_images == old(self).imported_images,
    {
        let mut m = String::new();
        m.append("Error loading ");
        m.append(path);
        m.append(": ");
        m.append(message);
        proof {
            assert(m@ =~= "Error loading "@ + path@ + ": "@ + message@);
        }
        self.status_message = Some((m, true));
    }

    /// Settles the state after loading files: after the first files of an empty list,
    /// an animated first input proposes its first frame's delay and a still one none;
    /// the destination goes back to the default and the message is cleared.
    pub fn finish_loading(&mut self, first_batch: bool)
        ensures
            final(self).imported_images == old(self).imported_images,
            first_batch && old(self).imported_images@.len() > 0 ==> final(self).custom_delay_ms == if old(self).imported_images@[0].frames@.len() > 1 {
                Some(old(self).imported_images@[0].frames@[0].delay_ms)
            } else {
                None
            },
            !(first_batch && old(self).imported_images@.len() > 0) ==> final(self).custom_delay_ms == old(self).custom_delay_ms,
            !final(self).manual_destination,
            final(self).status_message is None,
            default_destination_of(*final(self), final(self).destination_text@),
    {
        if first_batch && self.imported_images.len() > 0 {
            if self.imported_images[0].frames.len() > 1 {
                self.custom_delay_ms = Some(self.imported_images[0].frames[0].delay_ms);
            } else {
                self.custom_delay_ms = None;
            }
        }
        self.manual_destination = false;
        self.destination_text = self.compute_default_destination();
        self.status_message = None;
    }

    /// Removes the input at `index` and brings the destination in line.
    pub fn remove_image(&mut self, index: usize)
        requires
            index < old(self).imported_images@.len(),
        ensures
            final(self).imported_images@ == old(self).imported_images@.remove(index as int),
            final(self).target_format == old(self).target_format,
    {
        self.imported_images.remove(index);
        self.sync_destination_if_needed();
    }

    /// Chooses the output format and brings the destination in line.
    pub fn select_format(&mut self, format: TargetFormat)
        ensures
            final(self).target_format == format,
            final(self).imported_images == old(self).imported_images,
    {
        self.target_format = format;
        self.sync_destination_if_needed();
    }

    /// Turns merging into one animation on or off and brings the destination in line.
    pub fn set_merge_into_animation(&mut self, merge: bool)
        ensures
            final(self).merge_into_animation == merge,
            final(self).imported_images == old(self).imported_images,
    {
        self.merge_into_animation = merge;
        self.sync_destination_if_needed();
    }

    /// The JPEG/quality setting a conversion uses: the chosen quality when compression
    /// is on, else 98.
    pub open spec fn conversion_quality(&self) -> u8 {
        if self.compression_enabled {
            self.compression_quality
        } else {
            98
        }
    }

    /// Plans the conversion the convert button asks for, or `None` when the converter
    /// is busy, there is no input, or (one output file) the destination is empty, in
    /// which case the message asks for a destination.
    ///
    /// The destination is the trimmed destination text, or the default one when that
    /// is blank. A batch writes each input to the destination folder under
    /// `batch_output_name` of its stem, marked "_converted" when the plain name is the
    /// input's own path; the folder must be created. One output file takes all
    /// inputs' frames when merging into one animation, else the first input's; its
    /// folder is created if possible.
    pub fn trigger_conversion(&mut self) -> (plan: Option<ConversionRequest>)
        ensures
            old(self).converter.is_converting || old(self).imported_images@.len() == 0 ==> plan is None && *final(self) == *old(self),
            final(self).imported_images == old(self).imported_images,
            final(self).converter == old(self).converter,
            plan matches Some(req) ==> {
                &&& !old(self).converter.is_converting
                &&& old(self).imported_images@.len() > 0
                &&& req.job.format == old(self).target_format
                &&& req.job.quality == old(self).conversion_quality()
                &&& req.job.custom_delay_ms == old(self).custom_delay_ms
                &&& req.job.repeat_count == old(self).repeat_count
                &&& req.folder_required == old(self).batch_mode()
                &&& final(self).status_message == old(self).status_message
                &&& if old(self).batch_mode() {
                    &&& req.job.items@.len() == old(self).imported_images@.len()
                    &&& forall|i: int| 0 <= i < req.job.items@.len() ==> same_frames(
                        (#[trigger] req.job.items@[i]).frames@,
                        old(self).imported_images@[i].frames@,
                    )
                    &&& req.folder matches Some(f) && conversion_destination(*old(self), f@) && (portable(f@) ==> forall|i: int|
                        0 <= i < req.job.items@.len() && leaf_path(old(self).imported_images@[i].path@) ==> batch_target(
                        (#[trigger] req.job.items@[i]).out_path@,
                        f@,
                        stem_of(leaf_of(old(self).imported_images@[i].path@)),
                        extension_text(old(self).target_format),
                    ))
                } else {
                    &&& req.job.items@.len() == 1
                    &&& conversion_destination(*old(self), req.job.items@[0].out_path@)
                    &&& parent_known(req.job.items@[0].out_path@) ==> (req.folder matches Some(f)
                        && f@ == parent_of(req.job.items@[0].out_path@))
                    &&& same_frames(
                        req.job.items@[0].frames@,
                        if old(self).merging() {
                            all_frames(old(self).imported_images@)
                        } else {
                            old(self).imported_images@[0].frames@
                        },
                    )
                }
            },
            plan is None && !old(self).converter.is_converting && old(self).imported_images@.len() > 0 ==> {
                &&& !old(self).batch_mode()
                &&& final(self).status_message matches Some((m, true)) && m@ == "Please specify a valid destination path"@
            },
    {
        if self.converter.is_converting || self.imported_images.len() == 0 {
            return None;
        }
        let quality: u8 = if self.compression_enabled {
            self.compression_quality
        } else {
            98
        };
        let chosen = trim_text(self.destination_text.as_str());
        let destination: String = if chosen.unicode_len() != 0 {
            chosen.to_owned()
        } else {
            self.compute_default_destination()
        };
        let ext = self.target_format.extension();
        if self.is_batch_mode() {
            let mut items: Vec<ConvertItem> = Vec::new();
            let n = self.imported_images.len();
            let mut i: usize = 0;
            while i < n
                invariant
                    i <= n,
                    n == self.imported_images@.len(),
                    items@.len() == i,
                    ext@ == extension_text(self.target_format),
                    forall|j: int| 0 <= j < i ==> same_frames((#[trigger] items@[j]).frames@, self.imported_images@[j].frames@),
                    portable(destination@) ==> forall|j: int| 0 <= j < i && leaf_path(self.imported_images@[j].path@) ==> batch_target(
                        (#[trigger] items@[j]).out_path@,
                        destination@,
                        stem_of(leaf_of(self.imported_images@[j].path@)),
                        ext@,
                    ),
                decreases n - i,
            {
                let image = &self.imported_images[i];
                let stem = path_file_stem(image.path.as_str());
                let stem_text: Option<&str> = match &stem {
                    Some(s) => Some(s.as_str()),
                    None => None,
                };
                proof {
                    if leaf_path(image.path@) {
                        lemma_stem_of_plain(leaf_of(image.path@));
                        lemma_batch_name_plain(stem_of(leaf_of(image.path@)), false, self.target_format);
                        lemma_batch_name_plain(stem_of(leaf_of(image.path@)), true, self.target_format);
                    }
                }
                let plain = batch_output_file_name(stem_text, false, ext);
                let mut target = path_join(destination.as_str(), plain.as_str());
                if same_path(target.as_str(), image.path.as_str()) {
                    let marked = batch_output_file_name(stem_text, true, ext);
                    target = path_join(destination.as_str(), marked.as_str());
                }
                let ghost items_before = items@;
                items.push(ConvertItem { frames: copy_frames(&image.frames), out_path: target });
                proof {
                    if portable(destination@) {
                        assert forall|j: int| 0 <= j < i + 1 && leaf_path(self.imported_images@[j].path@) implies batch_target(
                            (#[trigger] items@[j]).out_path@,
                            destination@,
                            stem_of(leaf_of(self.imported_images@[j].path@)),
                            ext@,
                        ) by {
                            if j < i {
                                assert(items@[j] == items_before[j]);
                            }
                        }
                    }
                }
                i = i + 1;
            }
            let job = ConvertJob {
                items,
                format: self.target_format,
                quality,
                custom_delay_ms: self.custom_delay_ms,
                repeat_count: self.repeat_count,
            };
            Some(ConversionRequest { folder: Some(destination), folder_required: true, job })
        } else {
            if destination.unicode_len() == 0 {
                let mut m = String::new();
                m.append("Please specify a valid destination path");
                self.status_message = Some((m, true));
                return None;
            }
            let frames = if self.merge_into_animation && self.target_format.is_animated() {
                self.merged_frames()
            } else {
                copy_frames(&self.imported_images[0].frames)
            };
            let folder = path_parent(destination.as_str());
            let job = ConvertJob::single(
                frames,
                destination,
                self.target_format,
                quality,
                self.custom_delay_ms,
                self.repeat_count,
            );
            Some(ConversionRequest { folder, folder_required: false, job })
        }
    }

    /// Copies of the frames of all inputs, one input after the other.
    pub fn merged_frames(&self) -> (out: Vec<Frame>)
        ensures
            same_frames(out@, all_frames(self.imported_images@)),
    {
        let mut out: Vec<Frame> = Vec::new();
        let n = self.imported_images.len();
        let mut i: usize = 0;
        while i < n
            invariant
                i <= n,
                n == self.imported_images@.len(),
                same_frames(out@, all_frames(self.imported_images@.subrange(0, i as int))),
            decreases n - i,
        {
            let ghost before = out@;
            let mut copies = copy_frames(&self.imported_images[i].frames);
            let ghost added = copies@;
            out.append(&mut copies);
            proof {
                let prefix = self.imported_images@.subrange(0, i + 1);
                assert(prefix.drop_last() =~= self.imported_images@.subrange(0, i as int));
                assert(prefix.last() == self.imported_images@[i as int]);
                let expected = all_frames(prefix);
                assert(expected == all_frames(self.imported_images@.subrange(0, i as int)) + self.imported_images@[i as int].frames@);
                assert forall|k: int| 0 <= k < out@.len() implies {
                    &&& (#[trigger] out@[k]).image.spec_pixels() == expected[k].image.spec_pixels()
                    &&& out@[k].image.same_size(&expected[k].image)
                    &&& out@[k].delay_ms == expected[k].delay_ms
                } by {
                    if k < before.len() {
                        assert(out@[k] == before[k]);
                    } else {
                        assert(out@[k] == added[k - before.len()]);
                    }
                }
            }
            i = i + 1;
        }
        assert(self.imported_images@.subrange(0, n as int) =~= self.imported_images@);
        out
    }

    /// A planned conversion starts: the converter receives the job's events and the
    /// message is cleared.
    pub fn begin_conversion(&mut self, total: usize)
        ensures
            final(self).converter.receiving,
            final(self).converter.is_converting,
            final(self).converter.progress == Some((0usize, total)),
            final(self).status_message is None,
            final(self).imported_images == old(self).imported_images,
    {
        self.status_message = None;
        self.converter.start(total);
    }

    /// A batch could not start because its folder could not be created.
    pub fn report_folder_error(&mut self, message: &str)
        ensures
            final(self).status_message matches Some((m, true)) && m@ == "Failed to create destination directory: "@ + message@,
            final(self).imported_images == old(self).imported_images,
            final(self).converter == old(self).converter,
    {
        let mut m = String::new();
        m.append("Failed to create destination directory: ");
        m.append(message);
        proof {
            assert(m@ =~= "Failed to create destination directory: "@ + message@);
        }
        self.status_message = Some((m, true));
    }

    /// Adds `path` to the written files unless it is listed already (as a path).
    fn note_output(&mut self, path: String)
        ensures
            final(self).output_files@ == old(self).output_files@ || final(self).output_files@ == old(self).output_files@.push(path),
            (exists|i: int| 0 <= i < old(self).output_files@.len() && (#[trigger] old(self).output_files@[i])@ == path@)
                ==> final(self).output_files@ == old(self).output_files@,
            distinct_paths(old(self).output_files@) ==> distinct_paths(final(self).output_files@),
            canonical(path@) && (forall|i: int| 0 <= i < old(self).output_files@.len() ==> (#[trigger] old(self).output_files@[i])@ != path@
                && canonical(old(self).output_files@[i]@)) ==> final(self).output_files@ == old(self).output_files@.push(path),
            all_canonical(old(self).output_files@.push(path)) ==> final(self).output_files@ == with_new_paths(
                old(self).output_files@,
                seq![path],
            ),
            final(self).imported_images == old(self).imported_images,
            final(self).language == old(self).language,
            final(self).status_message == old(self).status_message,
            final(self).converter == old(self).converter,
    {
        proof {
            lemma_new_path_one(self.output_files@, path);
        }
        let n = self.output_files.len();
        let mut i: usize = 0;
        while i < n
            invariant
                i <= n,
                n == self.output_files@.len(),
                forall|j: int| 0 <= j < i ==> (#[trigger] self.output_files@[j])@ != path@,
                with_new_paths(self.output_files@, seq![path]) == (if exists|i: int| 0 <= i < self.output_files@.len()
                    && (#[trigger] self.output_files@[i])@ == path@ {
                    self.output_files@
                } else {
                    self.output_files@.push(path)
                }),
            decreases n - i,
        {
            if same_path(self.output_files[i].as_str(), path.as_str()) {
                proof {
                    let grown = self.output_files@.push(path);
                    if all_canonical(grown) {
                        assert(grown[i as int] == self.output_files@[i as int]);
                        assert(canonical(grown[i as int]@));
                        assert(grown[grown.len() - 1] == path);
                        assert(canonical(grown[grown.len() - 1]@));
                        assert(self.output_files@[i as int]@ == path@);
                    }
                }
                return;
            }
            i = i + 1;
        }
        self.output_files.push(path);
    }

    /// Takes in an event of the running conversion: a written file is listed (once)
    /// and the progress shown; a failed item's message is shown as an error; when all
    /// items are done every written file is listed (once) and the message tells how
    /// many files were converted, or how many errors there were.
    pub fn apply_convert_event(&mut self, event: ConvertEvent)
        ensures
            final(self).imported_images == old(self).imported_images,
            final(self).converter == old(self).converter,
            distinct_paths(old(self).output_files@) ==> distinct_paths(final(self).output_files@),
            match event {
                ConvertEvent::ItemSuccess { out_path, current, total } => {
                    &&& final(self).output_files@ == old(self).output_files@
                        || final(self).output_files@ == old(self).output_files@.push(out_path)
                    &&& (exists|i: int| 0 <= i < old(self).output_files@.len() && (#[trigger] old(self).output_files@[i])@ == out_path@)
                        ==> final(self).output_files@ == old(self).output_files@
                    &&& all_canonical(old(self).output_files@.push(out_path)) && distinct_paths(old(self).output_files@.push(out_path))
                        ==> final(self).output_files@ == old(self).output_files@.push(out_path)
                    &&& all_canonical(old(self).output_files@.push(out_path))
                        ==> final(self).output_files@ == with_new_paths(old(self).output_files@, seq![out_path])
                    &&& final(self).status_message matches Some((m, false))
                        && m@ == (match old(self).language {
                            Language::English => "Converting "@ + decimal(current as nat) + "/"@ + decimal(total as nat) + "..."@,
                            Language::Chinese => "正在转换 "@ + decimal(current as nat) + "/"@ + decimal(total as nat) + "..."@,
                        })
                },
                ConvertEvent::ItemError { error, .. } => {
                    &&& final(self).output_files == old(self).output_files
                    &&& final(self).status_message == Some((error, true))
                },
                ConvertEvent::AllFinished { successful, errors, .. } => {
                    &&& old(self).output_files@.len() <= final(self).output_files@.len()
                        <= old(self).output_files@.len() + successful@.len()
                    &&& final(self).output_files@.subrange(0, old(self).output_files@.len() as int) == old(self).output_files@
                    &&& appends_in_order(old(self).output_files@, final(self).output_files@, successful@)
                    &&& all_canonical(old(self).output_files@ + successful@) && distinct_paths(old(self).output_files@ + successful@)
                        ==> final(self).output_files@ == old(self).output_files@ + successful@
                    &&& all_canonical(old(self).output_files@ + successful@)
                        ==> final(self).output_files@ == with_new_paths(old(self).output_files@, successful@)
                    &&& if errors@.len() == 0 {
                        final(self).status_message matches Some((m, false))
                            && m@ == (match old(self).language {
                                Language::English => "Converted "@ + decimal(final(self).output_files@.len()) + " files successfully!"@,
                                Language::Chinese => "成功转换 "@ + decimal(final(self).output_files@.len()) + " 个文件！"@,
                            })
                    } else {
                        final(self).status_message matches Some((m, true)) && m@ == errors_message(errors@.len())
                    }
                },
            },
    {
        match event {
            ConvertEvent::ItemSuccess { out_path, current, total } => {
                proof {
                    let grown = self.output_files@.push(out_path);
                    if all_canonical(grown) && distinct_paths(grown) {
                        assert(canonical(grown[grown.len() - 1]@));
                        assert forall|i: int| 0 <= i < self.output_files@.len() implies (#[trigger] self.output_files@[i])@
                            != out_path@ && canonical(self.output_files@[i]@) by {
                            assert(grown[i] == self.output_files@[i]);
                            assert(grown[grown.len() - 1] == out_path);
                        }
                    }
                }
                self.note_output(out_path);
                self.status_message = Some((Loc::batch_converting_progress(self.language, current, total), false));
            },
            ConvertEvent::ItemError { error, .. } => {
                self.status_message = Some((error, true));
            },
            ConvertEvent::AllFinished { successful, errors, .. } => {
                let mut successful = successful;
                let ghost start = self.output_files@;
                let ghost listed = successful@;
                let ghost mut idx: Seq<int> = Seq::empty();
                let m = successful.len();
                let mut k: usize = 0;
                proof {
                    assert(self.output_files@.subrange(0, start.len() as int) =~= start);
                    assert(picks(start, self.output_files@, listed, idx));
                }
                while k < m
                    invariant
                        k <= m,
                        m == listed.len(),
                        successful@ == listed,
                        start.len() <= self.output_files@.len() <= start.len() + k,
                        self.output_files@.subrange(0, start.len() as int) == start,
                        picks(start, self.output_files@, listed, idx),
                        forall|j: int| 0 <= j < idx.len() ==> #[trigger] idx[j] < k,
                        all_canonical(start + listed) && distinct_paths(start + listed)
                            ==> self.output_files@ == start + listed.subrange(0, k as int),
                        all_canonical(start + listed) ==> self.output_files@ == with_new_paths(start, listed.subrange(0, k as int)),
                        distinct_paths(start) ==> distinct_paths(self.output_files@),
                        self.imported_images == old(self).imported_images,
                        self.language == old(self).language,
                        self.converter == old(self).converter,
                    decreases m - k,
                {
                    let path = successful[k].clone();
                    let ghost before = self.output_files@;
                    proof {
                        if all_canonical(start + listed) && distinct_paths(start + listed) {
                            assert(canonical((start + listed)[start.len() + k]@));
                            assert forall|i: int| 0 <= i < before.len() implies (#[trigger] before[i])@ != path@
                                && canonical(before[i]@) by {
                                assert(before[i] == (start + listed)[i]);
                                assert(path == (start + listed)[start.len() + k]);
                            }
                        }
                    }
                    proof {
                        if all_canonical(start + listed) {
                            assert(canonical((start + listed)[start.len() + k]@));
                            assert(path == (start + listed)[start.len() + k]);
                            assert forall|i: int| 0 <= i < before.len() + 1 implies canonical(#[trigger] before.push(path)[i]@) by {
                                if i < start.len() {
                                    assert(before[i] == start[i]);
                                    assert(start[i] == (start + listed)[i]);
                                } else if i < before.len() {
                                    let j = i - start.len();
                                    assert(before[start.len() + j] == listed[idx[j]]);
                                    assert(listed[idx[j]] == (start + listed)[start.len() + idx[j]]);
                                }
                            }
                        }
                    }
                    self.note_output(path);
                    proof {
                        if all_canonical(start + listed) {
                            let items = listed.subrange(0, k + 1);
                            assert(items.drop_last() =~= listed.subrange(0, k as int));
                            assert(items.last() == path);
                            lemma_new_path_one(before, path);
                            assert(with_new_paths(before, seq![path]) == (if exists|i: int| 0 <= i < before.len() && (#[trigger] before[i])@ == path@ {
                                before
                            } else {
                                before.push(path)
                            }));
                        }
                        if self.output_files@ != before {
                            assert(self.output_files@.subrange(0, start.len() as int) =~= before.subrange(0, start.len() as int));
                            let old_idx = idx;
                            idx = idx.push(k as int);
                            assert forall|j: int| 0 <= j < idx.len() implies 0 <= #[trigger] idx[j] < listed.len()
                                && self.output_files@[start.len() + j] == listed[idx[j]] by {
                                if j < old_idx.len() {
                                    assert(idx[j] == old_idx[j]);
                                    assert(self.output_files@[start.len() + j] == before[start.len() + j]);
                                }
                            }
                            assert forall|a: int, b: int| 0 <= a < b < idx.len() implies #[trigger] idx[a] < #[trigger] idx[b] by {
                                if b < old_idx.len() {
                                    assert(idx[a] == old_idx[a] && idx[b] == old_idx[b]);
                                } else {
                                    assert(idx[a] == old_idx[a]);
                                }
                            }
                        }
                        if all_canonical(start + listed) && distinct_paths(start + listed) {
                            assert(self.output_files@ =~= start + listed.subrange(0, k + 1));
                        }
                    }
                    k = k + 1;
                }
                proof {
                    assert(listed.subrange(0, m as int) =~= listed);
                    assert(picks(start, self.output_files@, listed, idx));
                }
                if errors.len() == 0 {
                    self.status_message = Some((Loc::batch_completed(self.language, self.output_files.len()), false));
                } else {
                    let mut msg = String::new();
                    msg.append("Completed with ");
                    let count = decimal_text(errors.len() as u64);
                    msg.append(count.as_str());
                    msg.append(" error(s)");
                    proof {
                        assert(msg@ =~= errors_message(errors@.len()));
                    }
                    self.status_message = Some((msg, true));
                }
            },
        }
    }

    /// Takes in the outcome of switching the context menu entry: it was removed when
    /// it was active, installed otherwise. On success the flag flips; either way the
    /// message tells what happened.
    pub fn registry_toggled(&mut self, outcome: Result<(), String>)
        ensures
            final(self).imported_images == old(self).imported_images,
            match outcome {
                Ok(()) => {
                    &&& final(self).context_menu_active == !old(self).context_menu_active
                    &&& final(self).status_message matches Some((m, false)) && m@ == if old(self).context_menu_active {
                        "Right-click context menu removed"@
                    } else {
                        "Right-click context menu installed!"@
                    }
                },
                Err(e) => {
                    &&& final(self).context_menu_active == old(self).context_menu_active
                    &&& final(self).status_message matches Some((m, true)) && m@ == if old(self).context_menu_active {
                        "Failed to unregister: "@ + e@
                    } else {
                        "Failed to register: "@ + e@
                    }
                },
            },
    {
        let was_active = self.context_menu_active;
        let mut m = String::new();
        match outcome {
            Ok(()) => {
                if was_active {
                    m.append("Right-click context menu removed");
                } else {
                    m.append("Right-click context menu installed!");
                }
                self.context_menu_active = !was_active;
                self.status_message = Some((m, false));
            },
            Err(e) => {
                if was_active {
                    m.append("Failed to unregister: ");
                } else {
                    m.append("Failed to register: ");
                }
                m.append(e.as_str());
                self.status_message = Some((m, true));
            },
        }
    }

    /// Whether the convert button is enabled: there is input and no conversion runs.
    pub fn can_convert(&self) -> (b: bool)
        ensures
            b == (self.imported_images@.len() > 0 && !self.converter.is_converting),
    {
        self.imported_images.len() > 0 && !self.converter.is_converting
    }

    /// Whether merging into one animation is offered: several inputs and an animated
    /// output format.
    pub fn offers_merge(&self) -> (b: bool)
        ensures
            b == (self.imported_images@.len() > 1 && animated(self.target_format)),
    {
        self.imported_images.len() > 1 && self.target_format.is_animated()
    }

    /// Whether the frame delay setting is offered: an animated output format, or an
    /// input with more than one frame.
    pub fn offers_frame_delay(&self) -> (b: bool)
        ensures
            b == (animated(self.target_format) || exists|i: int|
                0 <= i < self.imported_images@.len() && (#[trigger] self.imported_images@[i]).frames@.len() > 1),
    {
        if self.target_format.is_animated() {
            return true;
        }
        let n = self.imported_images.len();
        let mut i: usize = 0;
        while i < n
            invariant
                i <= n,
                n == self.imported_images@.len(),
                forall|j: int| 0 <= j < i ==> (#[trigger] self.imported_images@[j]).frames@.len() <= 1,
            decreases n - i,
        {
            if self.imported_images[i].frames.len() > 1 {
                return true;
            }
            i = i + 1;
        }
        false
    }

    /// Heading of the input column: the title, followed by the number of inputs in
    /// brackets when there are any.
    pub fn input_heading(&self) -> (t: String)
        ensures
            t@ == {
                let title = match self.language {
                    Language::English => "INPUT"@,
                    Language::Chinese => "输入源"@,
                };
                if self.imported_images@.len() == 0 {
                    title
                } else {
                    title + " ("@ + decimal(self.imported_images@.len()) + ")"@
                }
            },
    {
        let mut t = String::new();
        t.append(Loc::input_title(self.language));
        if self.imported_images.len() > 0 {
            t.append(" (");
            let count = decimal_text(self.imported_images.len() as u64);
            t.append(count.as_str());
            t.append(")");
        }
        t
    }

    /// Label of the destination field: "Folder:" for a batch, else the destination
    /// label of the language.
    pub fn destination_label(&self) -> (t: &'static str)
        ensures
            t@ == if self.batch_mode() {
                "Folder:"@
            } else {
                match self.language {
                    Language::English => "Destination:"@,
                    Language::Chinese => "保存路径:"@,
                }
            },
    {
        if self.is_batch_mode() {
            "Folder:"
        } else {
            Loc::destination(self.language)
        }
    }

    /// Hint of the empty destination field: an output folder for a batch, else an
    /// output file.
    pub fn destination_hint(&self) -> (t: &'static str)
        ensures
            t@ == if self.batch_mode() {
                match self.language {
                    Language::English => "(Select output folder)"@,
                    Language::Chinese => "(选择输出文件夹)"@,
                }
            } else {
                match self.language {
                    Language::English => "(Select input file)"@,
                    Language::Chinese => "(请选择输入图片)"@,
                }
            },
    {
        if self.is_batch_mode() {
            Loc::select_input_folder_hint(self.language)
        } else {
            Loc::select_input_hint(self.language)
        }
    }

    /// Whether closing the window only minimizes it.
    pub fn minimizes_on_close(&self) -> (b: bool)
        ensures
            b == (self.close_action == CloseAction::Minimize),
    {
        self.close_action == CloseAction::Minimize
    }
}

} // verus!
