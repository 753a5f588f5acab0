use vstd::prelude::*;
use vstd::string::StringSliceAdditionalSpecFns;

verus! {

/// The byte `|`.
pub const SEPARATOR: u8 = 0x7c;

/// The byte `.`.
pub const DOT: u8 = 0x2e;

/// The byte `A`.
pub const UPPER_A: u8 = 0x41;

/// The byte `Z`.
pub const UPPER_Z: u8 = 0x5a;

/// The byte that separates two extensions in the joined list.
pub open spec fn separator() -> u8 {
    SEPARATOR
}

/// ASCII lower-casing of one byte; every other byte is kept.
pub open spec fn lower_byte(b: u8) -> u8 {
    if UPPER_A <= b && b <= UPPER_Z {
        (b + 32) as u8
    } else {
        b
    }
}

/// An extension without its single leading dot, if it had one.
pub open spec fn strip_dot(ext: Seq<u8>) -> Seq<u8> {
    if ext.len() > 0 && ext[0] == DOT {
        ext.subrange(1, ext.len() as int)
    } else {
        ext
    }
}

/// The form in which an extension is stored: one leading dot removed, then
/// ASCII letters lower-cased.
pub open spec fn normalized_extension(ext: Seq<u8>) -> Seq<u8> {
    Seq::new(strip_dot(ext).len(), |i: int| lower_byte(strip_dot(ext)[i]))
}

/// Whether a stored extension names an archive format.
pub open spec fn is_archive_extension(ext: Seq<u8>) -> bool {
    // "gz"
    ||| ext == seq![103u8, 122u8]
    // "xz"
    ||| ext == seq![120u8, 122u8]
    // "zip"
    ||| ext == seq![122u8, 105u8, 112u8]
    // "rar"
    ||| ext == seq![114u8, 97u8, 114u8]
    // "7z"
    ||| ext == seq![55u8, 122u8]
    // "tar"
    ||| ext == seq![116u8, 97u8, 114u8]
    // "tgz"
    ||| ext == seq![116u8, 103u8, 122u8]
    // "txz"
    ||| ext == seq![116u8, 120u8, 122u8]
    // "bz2"
    ||| ext == seq![98u8, 122u8, 50u8]
    // "tar.gz"
    ||| ext == seq![116u8, 97u8, 114u8, 46u8, 103u8, 122u8]
    // "tar.bz2"
    ||| ext == seq![116u8, 97u8, 114u8, 46u8, 98u8, 122u8, 50u8]
    // "tar.xz"
    ||| ext == seq![116u8, 97u8, 114u8, 46u8, 120u8, 122u8]
}

/// The stored extensions in one string: in insertion order, with a separator
/// before each extension that follows a non-empty prefix.
pub open spec fn joined(list: Seq<Seq<u8>>) -> Seq<u8>
    decreases list.len(),
{
    if list.len() == 0 {
        Seq::empty()
    } else {
        append_extension(joined(list.drop_last()), list.last())
    }
}

/// One more extension at the end of a joined string.
pub open spec fn append_extension(prefix: Seq<u8>, ext: Seq<u8>) -> Seq<u8> {
    if prefix.len() == 0 {
        ext
    } else {
        prefix.push(separator()) + ext
    }
}

/// Whether no extension of the list names an archive format.
pub open spec fn no_archive(list: Seq<Seq<u8>>) -> bool {
    forall|i: int| 0 <= i < list.len() ==> !is_archive_extension(#[trigger] list[i])
}

fn same_bytes(a: &[u8], b: &[u8]) -> (same: bool)
    ensures
        same == (a@ == b@),
{
    if a.len() != b.len() {
        return false;
    }
    let mut i: usize = 0;
    while i < a.len()
        invariant
            a.len() == b.len(),
            i <= a.len(),
            forall|j: int| 0 <= j < i ==> a@[j] == b@[j],
        decreases a.len() - i,
    {
        if a[i] != b[i] {
            return false;
        }
        i += 1;
    }
    assert(a@ =~= b@);
    true
}

/// Says whether a stored extension names an archive format.
pub fn names_archive(ext: &[u8]) -> (archive: bool)
    ensures
        archive == is_archive_extension(ext@),
{
    // "gz"
    let gz = [103u8, 122u8];
    // "xz"
    let xz = [120u8, 122u8];
    // "zip"
    let zip = [122u8, 105u8, 112u8];
    // "rar"
    let rar = [114u8, 97u8, 114u8];
    // "7z"
    let seven = [55u8, 122u8];
    // "tar"
    let tar = [116u8, 97u8, 114u8];
    // "tgz"
    let tgz = [116u8, 103u8, 122u8];
    // "txz"
    let txz = [116u8, 120u8, 122u8];
    // "bz2"
    let bz2 = [98u8, 122u8, 50u8];
    // "tar.gz"
    let tar_gz = [116u8, 97u8, 114u8, 46u8, 103u8, 122u8];
    // "tar.bz2"
    let tar_bz2 = [116u8, 97u8, 114u8, 46u8, 98u8, 122u8, 50u8];
    // "tar.xz"
    let tar_xz = [116u8, 97u8, 114u8, 46u8, 120u8, 122u8];
    proof {
        assert(gz@ =~= seq![103u8, 122u8]);
        assert(xz@ =~= seq![120u8, 122u8]);
        assert(zip@ =~= seq![122u8, 105u8, 112u8]);
        assert(rar@ =~= seq![114u8, 97u8, 114u8]);
        assert(seven@ =~= seq![55u8, 122u8]);
        assert(tar@ =~= seq![116u8, 97u8, 114u8]);
        assert(tgz@ =~= seq![116u8, 103u8, 122u8]);
        assert(txz@ =~= seq![116u8, 120u8, 122u8]);
        assert(bz2@ =~= seq![98u8, 122u8, 50u8]);
        assert(tar_gz@ =~= seq![116u8, 97u8, 114u8, 46u8, 103u8, 122u8]);
        assert(tar_bz2@ =~= seq![116u8, 97u8, 114u8, 46u8, 98u8, 122u8, 50u8]);
        assert(tar_xz@ =~= seq![116u8, 97u8, 114u8, 46u8, 120u8, 122u8]);
    }
    same_bytes(ext, gz.as_slice()) || same_bytes(ext, xz.as_slice())
        || same_bytes(ext, zip.as_slice()) || same_bytes(ext, rar.as_slice())
        || same_bytes(ext, seven.as_slice()) || same_bytes(ext, tar.as_slice())
        || same_bytes(ext, tgz.as_slice()) || same_bytes(ext, txz.as_slice())
        || same_bytes(ext, bz2.as_slice()) || same_bytes(ext, tar_gz.as_slice())
        || same_bytes(ext, tar_bz2.as_slice()) || same_bytes(ext, tar_xz.as_slice())
}

/// Brings an extension into the stored form.
pub fn normalize_extension(ext: &[u8]) -> (stored: Vec<u8>)
    ensures
        stored@ == normalized_extension(ext@),
{
    let start: usize = if ext.len() > 0 && ext[0] == DOT { 1 } else { 0 };
    let mut stored: Vec<u8> = Vec::new();
    let mut i: usize = start;
    while i < ext.len()
        invariant
            start <= i <= ext.len(),
            start == (if ext@.len() > 0 && ext@[0] == DOT { 1usize } else { 0usize }),
            stored@.len() == i - start,
            forall|j: int| 0 <= j < stored@.len() ==> stored@[j] == lower_byte(ext@[j + start]),
        decreases ext.len() - i,
    {
        let b: u8 = ext[i];
        let lowered: u8 = if UPPER_A <= b && b <= UPPER_Z { b + 32 } else { b };
        stored.push(lowered);
        i += 1;
    }
    assert(stored@ =~= normalized_extension(ext@));
    stored
}

/// What a descriptor holds, as plain values.
pub ghost struct CoreInfoView {
    pub library_name: Seq<char>,
    pub library_version: Seq<char>,
    pub extensions: Seq<Seq<u8>>,
    pub supported_romfile_extensions: Seq<u8>,
    pub require_path_when_loading_roms: bool,
    pub allow_frontend_to_extract_archives: bool,
}

/// The identity of a core: its name and version, the file extensions it
/// accepts and how it wants its files handed over.
pub struct CoreInfo {
    library_name: String,
    library_version: String,
    extensions: Vec<Vec<u8>>,
    supported_romfile_extensions: Vec<u8>,
    require_path_when_loading_roms: bool,
    allow_frontend_to_extract_archives: bool,
}

impl View for CoreInfo {
    type V = CoreInfoView;

    closed spec fn view(&self) -> CoreInfoView {
        CoreInfoView {
            library_name: self.library_name@,
            library_version: self.library_version@,
            extensions: Seq::new(self.extensions@.len(), |i: int| self.extensions@[i]@),
            supported_romfile_extensions: self.supported_romfile_extensions@,
            require_path_when_loading_roms: self.require_path_when_loading_roms,
            allow_frontend_to_extract_archives: self.allow_frontend_to_extract_archives,
        }
    }
}

impl CoreInfo {
    /// The joined string is that of the stored list, and archives may be
    /// extracted by the frontend exactly while no archive extension is stored.
    pub open spec fn wf(&self) -> bool {
        &&& self@.supported_romfile_extensions == joined(self@.extensions)
        &&& self@.allow_frontend_to_extract_archives == no_archive(self@.extensions)
    }

    /// A descriptor with no extension yet.
    pub fn new(name: &str, version: &str) -> (info: CoreInfo)
        ensures
            info.wf(),
            info@.library_name == name@,
            info@.library_version == version@,
            info@.extensions == Seq::<Seq<u8>>::empty(),
            info@.supported_romfile_extensions == Seq::<u8>::empty(),
            !info@.require_path_when_loading_roms,
            info@.allow_frontend_to_extract_archives,
    {
        let info = CoreInfo {
            library_name: name.to_owned(),
            library_version: version.to_owned(),
            extensions: Vec::new(),
            supported_romfile_extensions: Vec::new(),
            require_path_when_loading_roms: false,
            allow_frontend_to_extract_archives: true,
        };
        assert(info@.extensions =~= Seq::<Seq<u8>>::empty());
        info
    }

    /// Stores one more extension, in its normalized form, behind those that
    /// are there. An archive extension ends the frontend's leave to extract
    /// archives, for good.
    pub fn supports_roms_with_extension(self, extension: &str) -> (info: CoreInfo)
        requires
            self.wf(),
        ensures
            info.wf(),
            info@.extensions == self@.extensions.push(
                normalized_extension(extension.spec_bytes()),
            ),
            info@.supported_romfile_extensions == append_extension(
                self@.supported_romfile_extensions,
                normalized_extension(extension.spec_bytes()),
            ),
            info@.allow_frontend_to_extract_archives == (self@.allow_frontend_to_extract_archives
                && !is_archive_extension(normalized_extension(extension.spec_bytes()))),
            info@.library_name == self@.library_name,
            info@.library_version == self@.library_version,
            info@.require_path_when_loading_roms == self@.require_path_when_loading_roms,
    {
        let mut info = self;
        let stored = normalize_extension(extension.as_bytes());
        let ghost before = info@;
        let ghost added = stored@;
        if !info.supported_romfile_extensions.is_empty() {
            info.supported_romfile_extensions.push(SEPARATOR);
        }
        let mut i: usize = 0;
        let ghost prefix = info.supported_romfile_extensions@;
        while i < stored.len()
            invariant
                i <= stored.len(),
                stored@ == added,
                info.supported_romfile_extensions@ == prefix + added.subrange(0, i as int),
                info.extensions == self.extensions,
                info.library_name == self.library_name,
                info.library_version == self.library_version,
                info.require_path_when_loading_roms == self.require_path_when_loading_roms,
                info.allow_frontend_to_extract_archives == self.allow_frontend_to_extract_archives,
            decreases stored.len() - i,
        {
            info.supported_romfile_extensions.push(stored[i]);
            i += 1;
            assert(info.supported_romfile_extensions@ =~= prefix + added.subrange(0, i as int));
        }
        assert(added.subrange(0, i as int) =~= added);
        assert(info.supported_romfile_extensions@ =~= append_extension(
            before.supported_romfile_extensions,
            added,
        ));
        if names_archive(stored.as_slice()) {
            info.allow_frontend_to_extract_archives = false;
        }
        info.extensions.push(stored);
        proof {
            let list = before.extensions.push(added);
            assert(info@.extensions =~= list);
            assert(list.drop_last() =~= before.extensions);
            assert(list.last() == added);
            if before.allow_frontend_to_extract_archives && !is_archive_extension(added) {
                assert forall|j: int| 0 <= j < list.len() implies !is_archive_extension(
                    #[trigger] list[j],
                ) by {
                    if j < before.extensions.len() {
                        assert(list[j] == before.extensions[j]);
                    }
                }
            } else if !before.allow_frontend_to_extract_archives {
                let j = choose|j: int|
                    0 <= j < before.extensions.len() && is_archive_extension(
                        #[trigger] before.extensions[j],
                    );
                assert(is_archive_extension(list[j]));
            } else {
                assert(is_archive_extension(list[list.len() - 1]));
            }
        }
        info
    }

    /// Asks the frontend for a path to the file in place of its contents.
    pub fn requires_path_when_loading_roms(self) -> (info: CoreInfo)
        ensures
            info@ == (CoreInfoView { require_path_when_loading_roms: true, ..self@ }),
            self.wf() ==> info.wf(),
    {
        let mut info = self;
        info.require_path_when_loading_roms = true;
        info
    }

    /// The core's name.
    pub fn library_name(&self) -> (name: &str)
        ensures
            name@ == self@.library_name,
    {
        self.library_name.as_str()
    }

    /// The core's version.
    pub fn library_version(&self) -> (version: &str)
        ensures
            version@ == self@.library_version,
    {
        self.library_version.as_str()
    }

    /// The accepted extensions in one string, as the frontend reads them.
    pub fn valid_extensions(&self) -> (list: &[u8])
        ensures
            list@ == self@.supported_romfile_extensions,
    {
        self.supported_romfile_extensions.as_slice()
    }

    /// How many extensions are stored.
    pub fn extension_count(&self) -> (count: usize)
        ensures
            count == self@.extensions.len(),
    {
        self.extensions.len()
    }

    /// The stored extension at a place of the list, counted from 0.
    pub fn extension(&self, index: usize) -> (ext: &[u8])
        requires
            index < self@.extensions.len(),
        ensures
            ext@ == self@.extensions[index as int],
    {
        self.extensions[index].as_slice()
    }

    /// What the frontend is told of the core: its name and version, the
    /// accepted extensions in one string, whether it needs a path to the
    /// file, and whether archives must be left as they are.
    pub fn system_info(&self) -> (told: SystemInfo)
        ensures
            told.library_name@ == self@.library_name,
            told.library_version@ == self@.library_version,
            told.valid_extensions@ == self@.supported_romfile_extensions,
            told.need_fullpath == self@.require_path_when_loading_roms,
            told.block_extract == !self@.allow_frontend_to_extract_archives,
    {
        SystemInfo {
            library_name: self.library_name.as_str().to_owned(),
            library_version: self.library_version.as_str().to_owned(),
            valid_extensions: vstd::slice::slice_to_vec(self.supported_romfile_extensions.as_slice()),
            need_fullpath: self.require_path_when_loading_roms,
            block_extract: !self.allow_frontend_to_extract_archives,
        }
    }

    /// Whether the frontend has to hand over a path to the file.
    pub fn need_fullpath(&self) -> (needed: bool)
        ensures
            needed == self@.require_path_when_loading_roms,
    {
        self.require_path_when_loading_roms
    }

    /// Whether the frontend must leave archives as they are.
    pub fn block_extract(&self) -> (blocked: bool)
        ensures
            blocked == !self@.allow_frontend_to_extract_archives,
    {
        !self.allow_frontend_to_extract_archives
    }
}

/// What the frontend is told of a core.
#[derive(Debug)]
pub struct SystemInfo {
    pub library_name: String,
    pub library_version: String,
    pub valid_extensions: Vec<u8>,
    pub need_fullpath: bool,
    pub block_extract: bool,
}

/// Once an archive extension is stored, the frontend may not extract
/// archives, whatever else is stored before or after it.
pub proof fn lemma_archive_extension_blocks_extraction(info: CoreInfo, index: int)
    requires
        info.wf(),
        0 <= index < info@.extensions.len(),
        is_archive_extension(info@.extensions[index]),
    ensures
        !info@.allow_frontend_to_extract_archives,
{
}

/// A stored extension that does not begin with a dot is already in the
/// stored form: normalizing it again gives the same bytes.
pub proof fn lemma_stored_form_is_stable(ext: Seq<u8>)
    requires
        normalized_extension(ext).len() == 0 || normalized_extension(ext)[0] != DOT,
    ensures
        normalized_extension(normalized_extension(ext)) == normalized_extension(ext),
{
    let stored = normalized_extension(ext);
    assert(strip_dot(stored) == stored);
    assert forall|i: int| 0 <= i < stored.len() implies lower_byte(stored[i]) == stored[i] by {
        assert(stored[i] == lower_byte(strip_dot(ext)[i]));
    }
    assert(normalized_extension(stored) =~= stored);
}

/// No archive name changes when it is normalized, so an archive extension
/// is known as one however its letters were cased and with or without a dot
/// in front.
pub proof fn lemma_archive_names_are_stored_forms(ext: Seq<u8>)
    requires
        is_archive_extension(ext),
    ensures
        normalized_extension(ext) == ext,
{
    assert(strip_dot(ext) == ext);
    assert(normalized_extension(ext) =~= ext);
}

} // verus!
