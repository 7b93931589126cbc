//! The fields of a multipart form: inline text is kept as it is, an image is
//! kept as the path under which its bytes are stored.

use vstd::prelude::*;
use vstd::string::StringExecFns;
use vstd::utf8::{decode_utf8, valid_utf8};
use crate::errors::ServiceError;
use crate::text::{chars_of, same_text};

verus! {

/// One field of a form: a name and the text under it.
#[derive(Clone, Debug, PartialEq, Eq)]
pub struct FormField {
    pub name: String,
    pub value: String,
}

/// The fields of a form, in the order in which they came. Of two fields with
/// one name the later one counts.
#[derive(Clone, Debug, PartialEq, Eq)]
pub struct FormFields {
    pub entries: Vec<FormField>,
}

/// The form that a list of fields stands for: each name with its last text.
pub open spec fn fields_of(entries: Seq<FormField>) -> Map<Seq<char>, Seq<char>>
    decreases entries.len(),
{
    if entries.len() == 0 {
        Map::empty()
    } else {
        fields_of(entries.drop_last()).insert(entries.last().name@, entries.last().value@)
    }
}

impl View for FormFields {
    type V = Map<Seq<char>, Seq<char>>;

    open spec fn view(&self) -> Map<Seq<char>, Seq<char>> {
        fields_of(self.entries@)
    }
}

/// The text under a name, if the form has the name.
pub open spec fn value_of(form: Map<Seq<char>, Seq<char>>, name: Seq<char>) -> Option<Seq<char>> {
    if form.dom().contains(name) {
        Some(form[name])
    } else {
        None
    }
}

/// A name that none of the fields from `from` on has is looked up in the
/// fields before `from`.
proof fn lemma_fields_of_tail(entries: Seq<FormField>, name: Seq<char>, from: int)
    requires
        0 <= from <= entries.len(),
        forall|j: int| from <= j < entries.len() ==> (#[trigger] entries[j]).name@ != name,
    ensures
        value_of(fields_of(entries), name) == value_of(fields_of(entries.take(from)), name),
    decreases entries.len() - from,
{
    if from == entries.len() {
        assert(entries.take(from) =~= entries);
    } else {
        let front = entries.drop_last();
        assert(entries.last().name@ != name);
        assert(front.take(from) =~= entries.take(from));
        lemma_fields_of_tail(front, name, from);
    }
}

impl FormFields {
    /// A form without fields.
    pub fn new() -> (r: FormFields)
        ensures
            r@ == Map::<Seq<char>, Seq<char>>::empty(),
            r.entries@.len() == 0,
    {
        FormFields { entries: Vec::new() }
    }

    /// Puts `value` under `name`, in place of what was there.
    pub fn insert(&mut self, name: String, value: String)
        ensures
            final(self)@ == old(self)@.insert(name@, value@),
            final(self).entries@ == old(self).entries@.push(FormField { name, value }),
    {
        self.entries.push(FormField { name, value });
        assert(self.entries@.drop_last() =~= old(self).entries@);
    }

    /// Whether the form has a field of this name.
    pub fn contains_key(&self, name: &str) -> (r: bool)
        ensures
            r == self@.dom().contains(name@),
    {
        self.get(name).is_some()
    }

    /// The text under `name`, if the form has the name.
    pub fn get(&self, name: &str) -> (r: Option<String>)
        ensures
            chars_of(r) == value_of(self@, name@),
    {
        let mut i: usize = self.entries.len();
        while i > 0
            invariant
                i <= self.entries@.len(),
                forall|j: int| i <= j < self.entries@.len() ==> (#[trigger] self.entries@[j]).name@
                    != name@,
            decreases i,
        {
            i -= 1;
            if same_text(self.entries[i].name.as_str(), name) {
                proof {
                    lemma_fields_of_tail(self.entries@, name@, i + 1);
                    assert(self.entries@.take(i + 1).drop_last() =~= self.entries@.take(i as int));
                }
                return Some(self.entries[i].value.clone());
            }
        }
        proof {
            lemma_fields_of_tail(self.entries@, name@, 0);
        }
        None
    }
}

/// What the service does with a part of a form, by the part's content type.
#[derive(Clone, Copy, Debug, PartialEq, Eq, Structural)]
pub enum PartKind {
    /// Inline text: kept as the field's text.
    Text,
    /// An image: stored as a file, and the field's text is the file's path.
    Image,
    /// Anything else: passed over.
    Other,
}

/// The kind of a part: `application/octet-stream` and `text/plain` are text,
/// every subtype of `image` is an image.
pub open spec fn part_kind(media_type: Seq<char>, subtype: Seq<char>) -> PartKind {
    if (media_type == "application"@ && subtype == "octet-stream"@) || (media_type == "text"@
        && subtype == "plain"@) {
        PartKind::Text
    } else if media_type == "image"@ {
        PartKind::Image
    } else {
        PartKind::Other
    }
}

/// The kind of a part with this content type, both names in lower case.
pub fn classify_part(media_type: &str, subtype: &str) -> (r: PartKind)
    ensures
        r == part_kind(media_type@, subtype@),
{
    if (same_text(media_type, "application") && same_text(subtype, "octet-stream")) || (same_text(
        media_type,
        "text",
    ) && same_text(subtype, "plain")) {
        PartKind::Text
    } else if same_text(media_type, "image") {
        PartKind::Image
    } else {
        PartKind::Other
    }
}

/// The characters that no stored file's name holds: the separators and
/// wildcards of paths, and the control characters.
pub open spec fn is_unsafe_char(c: char) -> bool {
    let n = c as u32;
    c == '/' || c == '?' || c == '<' || c == '>' || c == '\\' || c == ':' || c == '*' || c == '|'
        || c == '"' || n <= 0x1f || (0x80 <= n <= 0x9f)
}

/// A name that stays inside the directory it is put in: it holds no unsafe
/// character and is neither `.` nor `..`.
pub open spec fn is_safe_name(name: Seq<char>) -> bool {
    &&& forall|i: int| 0 <= i < name.len() ==> !is_unsafe_char(#[trigger] name[i])
    &&& name != seq!['.']
    &&& name != seq!['.', '.']
}

/// What `sanitize_filename` makes of a file's name, with its rules for
/// Windows switched off, truncation on and nothing put in place of what it
/// removes.
pub uninterp spec fn sanitized_name(name: Seq<char>) -> Seq<char>;

/// Calls `sanitize_filename::sanitize_with_options`, which removes from the
/// name the characters `/ ? < > \ : * | "` and the control characters, empties
/// a name made of dots alone, and cuts what is left after 255 bytes. The
/// contract names the result and states that it is a safe name.
#[verifier::external_body]
fn sanitize(name: &str) -> (r: String)
    ensures
        r@ == sanitized_name(name@),
        is_safe_name(r@),
{
    sanitize_filename::sanitize_with_options(
        name,
        sanitize_filename::Options { windows: false, truncate: true, replacement: "" },
    )
}

/// Calls `std::str::from_utf8`, which accepts exactly the bytes that are
/// well-formed UTF-8 and returns them as the text that they encode.
#[verifier::external_body]
fn decode(bytes: &[u8]) -> (r: Option<&str>)
    ensures
        match r {
            Some(text) => valid_utf8(bytes@) && text@ == decode_utf8(bytes@),
            None => !valid_utf8(bytes@),
        },
{
    match std::str::from_utf8(bytes) {
        Ok(text) => Some(text),
        Err(_) => None,
    }
}

/// The path under which a file of this (safe) name is served.
pub open spec fn storage_path(file: Seq<char>) -> Seq<char> {
    "/storage/"@ + file
}

/// Where an uploaded file goes.
#[derive(Clone, Debug, PartialEq, Eq)]
pub struct StoredFile {
    /// The position of the part that holds the file's bytes.
    pub part: usize,
    /// The file's name inside the storage directory.
    pub name: String,
    /// The path under which the file is served.
    pub path: String,
}

/// A stored file's position, name and path.
pub struct StoredFileView {
    pub part: int,
    pub name: Seq<char>,
    pub path: Seq<char>,
}

impl View for StoredFile {
    type V = StoredFileView;

    open spec fn view(&self) -> StoredFileView {
        StoredFileView { part: self.part as int, name: self.name@, path: self.path@ }
    }
}

/// The stored file of this name: it is served under the storage path.
pub open spec fn stored_under(part: int, name: Seq<char>) -> StoredFileView {
    StoredFileView { part, name, path: storage_path(name) }
}

/// The stored file for a client's file name: the name made safe, and the
/// path that serves it.
pub open spec fn stored_file(part: int, file_name: Seq<char>) -> StoredFileView {
    stored_under(part, sanitized_name(file_name))
}

/// Where the file of part number `part` goes, given the name under which it
/// is kept in the storage directory.
pub fn store_under(part: usize, name: String) -> (r: StoredFile)
    ensures
        r@ == stored_under(part as int, name@),
{
    let path = String::from_str("/storage/").concat(name.as_str());
    StoredFile { part, name, path }
}

/// Where the file of part number `part` goes, given the name that the client
/// gave it. The stored name is safe whatever the client's name was.
pub fn store_as(part: usize, file_name: &str) -> (r: StoredFile)
    ensures
        r@ == stored_file(part as int, file_name@),
        is_safe_name(r.name@),
{
    store_under(part, sanitize(file_name))
}

/// One part of a multipart form.
#[derive(Clone, Debug, PartialEq, Eq)]
pub struct Part {
    /// The name of the form's field.
    pub name: String,
    /// The content type's first name, in lower case.
    pub media_type: String,
    /// The content type's second name, in lower case.
    pub subtype: String,
    /// The file's name as the client gave it, if it gave one.
    pub file_name: Option<String>,
    /// The part's bytes where the part is inline text.
    pub body: Vec<u8>,
}

/// A part's texts and bytes.
pub struct PartView {
    pub name: Seq<char>,
    pub media_type: Seq<char>,
    pub subtype: Seq<char>,
    pub file_name: Option<Seq<char>>,
    pub body: Seq<u8>,
}

impl View for Part {
    type V = PartView;

    open spec fn view(&self) -> PartView {
        PartView {
            name: self.name@,
            media_type: self.media_type@,
            subtype: self.subtype@,
            file_name: chars_of(self.file_name),
            body: self.body@,
        }
    }
}

impl PartView {
    /// The part's kind.
    pub open spec fn kind(self) -> PartKind {
        part_kind(self.media_type, self.subtype)
    }

    /// A part that cannot be taken: text that is not UTF-8, or an image
    /// without a file name.
    pub open spec fn is_malformed(self) -> bool {
        match self.kind() {
            PartKind::Text => !valid_utf8(self.body),
            PartKind::Image => self.file_name is None,
            PartKind::Other => false,
        }
    }

    /// The text that the part puts under its name, if it puts any.
    pub open spec fn value(self) -> Option<Seq<char>> {
        match self.kind() {
            PartKind::Text => Some(decode_utf8(self.body)),
            PartKind::Image => match self.file_name {
                Some(file_name) => Some(storage_path(sanitized_name(file_name))),
                None => None,
            },
            PartKind::Other => None,
        }
    }
}

/// The parts as values.
pub open spec fn parts_of(parts: Seq<Part>) -> Seq<PartView> {
    parts.map_values(|p: Part| p@)
}

/// Whether one of the parts cannot be taken.
pub open spec fn any_malformed(parts: Seq<PartView>) -> bool {
    exists|i: int| 0 <= i < parts.len() && (#[trigger] parts[i]).is_malformed()
}

/// The form that the parts make, taken in order.
pub open spec fn collected(parts: Seq<PartView>) -> Map<Seq<char>, Seq<char>>
    decreases parts.len(),
{
    if parts.len() == 0 {
        Map::empty()
    } else {
        match parts.last().value() {
            Some(value) => collected(parts.drop_last()).insert(parts.last().name, value),
            None => collected(parts.drop_last()),
        }
    }
}

/// The files that the parts ask to be stored, in order.
pub open spec fn files_of(parts: Seq<PartView>) -> Seq<StoredFileView>
    decreases parts.len(),
{
    if parts.len() == 0 {
        Seq::empty()
    } else {
        match (parts.last().kind(), parts.last().file_name) {
            (PartKind::Image, Some(file_name)) => files_of(parts.drop_last()).push(
                stored_file(parts.len() - 1, file_name),
            ),
            _ => files_of(parts.drop_last()),
        }
    }
}

/// What an upload comes to: the form's fields and the files to store.
#[derive(Clone, Debug, PartialEq, Eq)]
pub struct Upload {
    pub fields: FormFields,
    pub files: Vec<StoredFile>,
}

/// Whether every file was written: one report for each, and each of them
/// good.
pub open spec fn all_written(files: int, written: Seq<bool>) -> bool {
    written.len() == files && forall|i: int| 0 <= i < written.len() ==> #[trigger] written[i]
}

impl Upload {
    /// The form of an upload whose files were to be written, given for each
    /// file whether that was done. A file that was not written fails the
    /// whole upload.
    pub fn finish(self, written: &Vec<bool>) -> (r: Result<FormFields, ServiceError>)
        ensures
            r == if all_written(self.files@.len() as int, written@) {
                Ok::<FormFields, ServiceError>(self.fields)
            } else {
                Err(ServiceError::Io)
            },
    {
        if written.len() != self.files.len() {
            return Err(ServiceError::Io);
        }
        let mut i: usize = 0;
        while i < written.len()
            invariant
                i <= written@.len(),
                forall|j: int| 0 <= j < i ==> #[trigger] written@[j],
            decreases written@.len() - i,
        {
            if !written[i] {
                return Err(ServiceError::Io);
            }
            i += 1;
        }
        Ok(self.fields)
    }
}

/// The stored files as values.
pub open spec fn files_view(files: Seq<StoredFile>) -> Seq<StoredFileView> {
    files.map_values(|f: StoredFile| f@)
}

/// Takes one part into the form. Inline text goes under the part's name; an
/// image goes there as the path of its stored file, which is added to
/// `files`; any other part changes nothing. Text that is not UTF-8 and an
/// image without a file name are refused, and nothing changes.
pub fn accept_part(
    fields: &mut FormFields,
    files: &mut Vec<StoredFile>,
    index: usize,
    part: &Part,
) -> (r: Result<(), ServiceError>)
    ensures
        part@.is_malformed() ==> r == Err::<(), ServiceError>(ServiceError::Malformed)
            && *final(fields) == *old(fields) && *final(files) == *old(files),
        !part@.is_malformed() ==> r == Ok::<(), ServiceError>(()),
        !part@.is_malformed() ==> final(fields)@ == match part@.value() {
            Some(value) => old(fields)@.insert(part@.name, value),
            None => old(fields)@,
        },
        !part@.is_malformed() ==> files_view(final(files)@) == match (
            part@.kind(),
            part@.file_name,
        ) {
            (PartKind::Image, Some(file_name)) => files_view(old(files)@).push(
                stored_file(index as int, file_name),
            ),
            _ => files_view(old(files)@),
        },
        final(files)@.len() >= old(files)@.len(),
        forall|i: int| 0 <= i < old(files)@.len() ==> final(files)@[i] == old(files)@[i],
        forall|i: int|
            old(files)@.len() <= i < final(files)@.len() ==> is_safe_name(
                #[trigger] final(files)@[i].name@,
            ),
{
    match classify_part(part.media_type.as_str(), part.subtype.as_str()) {
        PartKind::Text => {
            match decode(part.body.as_slice()) {
                Some(text) => {
                    fields.insert(part.name.clone(), text.to_owned());
                    Ok(())
                },
                None => Err(ServiceError::Malformed),
            }
        },
        PartKind::Image => {
            match &part.file_name {
                Some(file_name) => {
                    let file = store_as(index, file_name.as_str());
                    fields.insert(part.name.clone(), file.path.clone());
                    files.push(file);
                    assert(files_view(files@) =~= files_view(old(files)@).push(
                        stored_file(index as int, file_name@),
                    ));
                    Ok(())
                },
                None => Err(ServiceError::Malformed),
            }
        },
        PartKind::Other => Ok(()),
    }
}

/// Takes the parts of a form in order. If a part cannot be taken the upload
/// is refused as malformed; otherwise the result holds the form that the
/// parts make and the files to store, each under a safe name.
pub fn accept_uploading(parts: &Vec<Part>) -> (r: Result<Upload, ServiceError>)
    ensures
        any_malformed(parts_of(parts@)) <==> r is Err,
        r is Err ==> r == Err::<Upload, ServiceError>(ServiceError::Malformed),
        r matches Ok(upload) ==> upload.fields@ == collected(parts_of(parts@)) && files_view(
            upload.files@,
        ) == files_of(parts_of(parts@)) && forall|i: int|
            0 <= i < upload.files@.len() ==> is_safe_name(#[trigger] upload.files@[i].name@),
{
    let mut fields = FormFields::new();
    let mut files: Vec<StoredFile> = Vec::new();
    let mut i: usize = 0;
    let ghost all = parts_of(parts@);
    while i < parts.len()
        invariant
            i <= parts@.len(),
            all == parts_of(parts@),
            !any_malformed(all.take(i as int)),
            fields@ == collected(all.take(i as int)),
            files_view(files@) == files_of(all.take(i as int)),
            forall|j: int| 0 <= j < files@.len() ==> is_safe_name(#[trigger] files@[j].name@),
        decreases parts@.len() - i,
    {
        proof {
            assert(all.take(i + 1).drop_last() =~= all.take(i as int));
            assert(all.take(i + 1).last() == parts@[i as int]@);
        }
        match accept_part(&mut fields, &mut files, i, &parts[i]) {
            Ok(()) => {},
            Err(e) => {
                proof {
                    assert(all[i as int].is_malformed());
                }
                return Err(e);
            },
        }
        proof {
            let next = all.take(i + 1);
            assert forall|j: int| 0 <= j < next.len() implies !(#[trigger] next[j]).is_malformed() by {
                if j < i {
                    assert(all.take(i as int)[j] == next[j]);
                }
            }
        }
        i += 1;
    }
    proof {
        assert(all.take(i as int) =~= all);
    }
    Ok(Upload { fields, files })
}

} // verus!
