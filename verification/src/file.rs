//! File-side value types and extension wrappers: ratings, streaming
//! options and clippings, file attributes, and the wrappers that adapt a
//! user's extension to the shape the host calls.

use vstd::prelude::*;

use vstd::string::StringExecFns;

use crate::error::E_FAIL;
use crate::error::Hresult;
use crate::error::S_OK;
use crate::iid::Iid;
use crate::object::ComInterfaceQuerier;
use crate::object::InterfacePtr;

verus! {

/// The identifier of the custom file command capability.
pub open spec fn custom_file_command_iid() -> Iid {
    Iid {
        data1: 0,
        data2: 0,
        data3: 0,
        data4_0: 0,
        data4_1: 0,
        data4_2: 0,
        data4_3: 0,
        data4_4: 0,
        data4_5: 0,
        data4_6: 0,
        data4_7: 0,
    }
}

/// The identifier of the copy-to-clipboard command capability.
pub open spec fn copy_to_clipboard_command_iid() -> Iid {
    Iid {
        data1: 0x41465343,
        data2: 0x6D64,
        data3: 0x436F,
        data4_0: 0x70,
        data4_1: 0x79,
        data4_2: 0x32,
        data4_3: 0x43,
        data4_4: 0x6C,
        data4_5: 0x70,
        data4_6: 0x62,
        data4_7: 0x64,
    }
}

/// The identifier of the delete command capability.
pub open spec fn delete_command_iid() -> Iid {
    Iid {
        data1: 0x41465343,
        data2: 0x6D64,
        data3: 0x4465,
        data4_0: 0x6C,
        data4_1: 0x65,
        data4_2: 0x74,
        data4_3: 0x65,
        data4_4: 0,
        data4_5: 0,
        data4_6: 0,
        data4_7: 0,
    }
}

/// The identifier of the drop-source command capability.
pub open spec fn drop_source_command_iid() -> Iid {
    Iid {
        data1: 0x41465343,
        data2: 0x6D64,
        data3: 0x4472,
        data4_0: 0x6F,
        data4_1: 0x70,
        data4_2: 0x53,
        data4_3: 0x72,
        data4_4: 0x63,
        data4_5: 0,
        data4_6: 0,
        data4_7: 0,
    }
}

/// The identifier of the file-information command capability.
pub open spec fn file_info_command_iid() -> Iid {
    Iid {
        data1: 0x41494D50,
        data2: 0x4578,
        data3: 0x7446,
        data4_0: 0x69,
        data4_1: 0x6C,
        data4_2: 0x65,
        data4_3: 0x49,
        data4_4: 0x6E,
        data4_5: 0x66,
        data4_6: 0x6F,
        data4_7: 0,
    }
}

/// The identifier of the open-file-folder command capability.
pub open spec fn open_file_folder_command_iid() -> Iid {
    Iid {
        data1: 0x41465343,
        data2: 0x6D64,
        data3: 0x4669,
        data4_0: 0x6C,
        data4_1: 0x65,
        data4_2: 0x46,
        data4_3: 0x6C,
        data4_4: 0x64,
        data4_5: 0x72,
        data4_6: 0,
        data4_7: 0,
    }
}

/// The identifier of the streaming command capability.
pub open spec fn streaming_command_iid() -> Iid {
    Iid {
        data1: 0x41465343,
        data2: 0x6D64,
        data3: 0x5374,
        data4_0: 0x72,
        data4_1: 0x65,
        data4_2: 0x61,
        data4_3: 0x6D,
        data4_4: 0x69,
        data4_5: 0x6E,
        data4_6: 0x67,
        data4_7: 0,
    }
}

/// A file system's command capabilities. The object statically exposes
/// every command interface; the veto hook hides each command whose
/// capability the file system does not carry, so a query finds exactly
/// what is really there.
#[derive(Debug, Clone, Copy, PartialEq, Eq, Structural)]
pub struct FileSystem {
    pub custom: bool,
    pub copy_to_clipboard: bool,
    pub delete: bool,
    pub drop_source: bool,
    pub file_info: bool,
    pub open_file_folder: bool,
    pub streaming: bool,
}

impl ComInterfaceQuerier for FileSystem {
    open spec fn allows(&self, iid: Iid) -> bool {
        if iid == custom_file_command_iid() {
            self.custom
        } else if iid == copy_to_clipboard_command_iid() {
            self.copy_to_clipboard
        } else if iid == delete_command_iid() {
            self.delete
        } else if iid == drop_source_command_iid() {
            self.drop_source
        } else if iid == file_info_command_iid() {
            self.file_info
        } else if iid == open_file_folder_command_iid() {
            self.open_file_folder
        } else if iid == streaming_command_iid() {
            self.streaming
        } else {
            true
        }
    }

    fn query_interface(&self, riid: &Iid) -> (r: bool) {
        if *riid == Iid::new(0, 0, 0, 0, 0, 0, 0, 0, 0, 0, 0) {
            self.custom
        } else if *riid == Iid::new(
            0x41465343,
            0x6D64,
            0x436F,
            0x70,
            0x79,
            0x32,
            0x43,
            0x6C,
            0x70,
            0x62,
            0x64,
        ) {
            self.copy_to_clipboard
        } else if *riid == Iid::new(0x41465343, 0x6D64, 0x4465, 0x6C, 0x65, 0x74, 0x65, 0, 0, 0, 0) {
            self.delete
        } else if *riid == Iid::new(
            0x41465343,
            0x6D64,
            0x4472,
            0x6F,
            0x70,
            0x53,
            0x72,
            0x63,
            0,
            0,
            0,
        ) {
            self.drop_source
        } else if *riid == Iid::new(
            0x41494D50,
            0x4578,
            0x7446,
            0x69,
            0x6C,
            0x65,
            0x49,
            0x6E,
            0x66,
            0x6F,
            0,
        ) {
            self.file_info
        } else if *riid == Iid::new(
            0x41465343,
            0x6D64,
            0x4669,
            0x6C,
            0x65,
            0x46,
            0x6C,
            0x64,
            0x72,
            0,
            0,
        ) {
            self.open_file_folder
        } else if *riid == Iid::new(
            0x41465343,
            0x6D64,
            0x5374,
            0x72,
            0x65,
            0x61,
            0x6D,
            0x69,
            0x6E,
            0x67,
            0,
        ) {
            self.streaming
        } else {
            true
        }
    }
}

/// A whole-star track rating: an integer from zero to five, zero meaning
/// unrated.
#[derive(Ord, PartialOrd, Eq, PartialEq, Copy, Clone, Structural, Debug)]
pub struct FileInfoRating(i32);

impl FileInfoRating {
    /// The rating's value; always between zero and five.
    pub closed spec fn spec_value(&self) -> i32 {
        self.0
    }

    /// Accepts a rating exactly when it lies between zero and five.
    pub fn new(rating: i32) -> (r: Option<FileInfoRating>)
        ensures
            0 <= rating <= 5 <==> r is Some,
            r is Some ==> r.unwrap().spec_value() == rating,
    {
        if rating >= 0 && rating <= 5 {
            Some(FileInfoRating(rating))
        } else {
            None
        }
    }

    /// The rating's value.
    pub fn value(&self) -> (r: i32)
        ensures
            r == self.spec_value(),
    {
        self.0
    }
}

/// The flag bit asking for a newly created file.
pub const FILE_STREAMING_CREATE_NEW: u32 = 1;

/// The flag bit asking for read access; the zero flag, the default.
pub const FILE_STREAMING_READ: u32 = 0;

/// The flag bit asking for read and write access.
pub const FILE_STREAMING_READ_WRITE: u32 = 2;

/// The flag bit asking for the file to be mapped into memory.
pub const FILE_STREAMING_MAP_TO_MEMORY: u32 = 4;

/// One bit set or cleared in an optional flag word: with no word yet, a
/// set bit starts one and a cleared bit keeps none.
pub open spec fn updated_flags(flags: Option<u32>, bit: u32, cond: bool) -> Option<u32> {
    match flags {
        Some(f) => Some(
            if cond {
                f | bit
            } else {
                f & !bit
            },
        ),
        None => if cond {
            Some(bit)
        } else {
            None
        },
    }
}

/// A span of a file: where it starts and how many bytes it covers.
#[derive(Debug, Clone, Copy, PartialEq, Eq, Structural, Hash)]
pub struct FileClipping {
    pub offset: i64,
    pub size: i64,
}

impl FileClipping {
    /// The clipping covering the half-open span from `start` to `end`.
    pub fn from_range(start: i64, end: i64) -> (r: FileClipping)
        requires
            start <= end,
            end - start <= i64::MAX,
        ensures
            r.offset == start,
            r.size == end - start,
    {
        FileClipping { offset: start, size: end - start }
    }
}

/// How a file stream is to be opened: an optional clipping and an optional
/// word of access flags; with no flags set, opening falls back to plain
/// read access.
#[derive(Debug, Clone, Copy, PartialEq, Eq, Structural)]
pub struct FileStreamingOptions {
    pub clipping: Option<FileClipping>,
    pub flags: Option<u32>,
}

impl FileStreamingOptions {
    /// Options asking for nothing in particular yet.
    pub fn new() -> (r: FileStreamingOptions)
        ensures
            r.clipping is None,
            r.flags is None,
    {
        FileStreamingOptions { clipping: None, flags: None }
    }

    /// These options restricted to the given clipping.
    pub fn with_clipping(self, clipping: FileClipping) -> (r: FileStreamingOptions)
        ensures
            r.clipping == Some(clipping),
            r.flags == self.flags,
    {
        FileStreamingOptions { clipping: Some(clipping), flags: self.flags }
    }

    /// Sets or clears one flag bit.
    fn update_flags(&mut self, bit: u32, cond: bool)
        ensures
            final(self).flags == updated_flags(old(self).flags, bit, cond),
            final(self).clipping == old(self).clipping,
    {
        match self.flags {
            Some(f) => {
                self.flags = Some(
                    if cond {
                        f | bit
                    } else {
                        f & !bit
                    },
                );
            },
            None => {
                if cond {
                    self.flags = Some(bit);
                }
            },
        }
    }

    /// These options with file creation asked for when `cond` holds.
    pub fn create_new(self, cond: bool) -> (r: FileStreamingOptions)
        ensures
            r.flags == updated_flags(self.flags, FILE_STREAMING_CREATE_NEW, cond),
            r.clipping == self.clipping,
    {
        let mut this = self;
        this.update_flags(FILE_STREAMING_CREATE_NEW, cond);
        this
    }

    /// These options with read access asked for when `cond` holds. Read
    /// access is the zero flag, so this never changes the word's bits.
    pub fn read(self, cond: bool) -> (r: FileStreamingOptions)
        ensures
            r.flags == updated_flags(self.flags, FILE_STREAMING_READ, cond),
            r.clipping == self.clipping,
    {
        let mut this = self;
        this.update_flags(FILE_STREAMING_READ, cond);
        this
    }

    /// These options with read-write access asked for when `cond` holds.
    pub fn read_write(self, cond: bool) -> (r: FileStreamingOptions)
        ensures
            r.flags == updated_flags(self.flags, FILE_STREAMING_READ_WRITE, cond),
            r.clipping == self.clipping,
    {
        let mut this = self;
        this.update_flags(FILE_STREAMING_READ_WRITE, cond);
        this
    }

    /// These options with memory mapping asked for when `cond` holds.
    pub fn map_to_memory(self, cond: bool) -> (r: FileStreamingOptions)
        ensures
            r.flags == updated_flags(self.flags, FILE_STREAMING_MAP_TO_MEMORY, cond),
            r.clipping == self.clipping,
    {
        let mut this = self;
        this.update_flags(FILE_STREAMING_MAP_TO_MEMORY, cond);
        this
    }

    /// The flag word an open call sends: what was set, or plain read
    /// access when nothing was.
    pub fn effective_flags(&self) -> (r: u32)
        ensures
            r == (match self.flags {
                Some(f) => f,
                None => FILE_STREAMING_READ,
            }),
    {
        match self.flags {
            Some(f) => f,
            None => FILE_STREAMING_READ,
        }
    }
}

/// Reads a stream's clipping out of what the boundary call answered: a
/// failure status means the stream is unclipped, success carries the
/// clipping's two numbers. Any other status is a caller error, left out
/// here rather than unwrapped.
pub fn clipping_from_parts(status: Hresult, offset: i64, size: i64) -> (r: Option<FileClipping>)
    requires
        status.0 == S_OK || status.0 == E_FAIL,
    ensures
        status.0 == E_FAIL ==> r is None,
        status.0 == S_OK ==> r == Some(FileClipping { offset, size }),
{
    if status.0 == E_FAIL {
        None
    } else {
        Some(FileClipping { offset, size })
    }
}

/// A file's timestamps, as seconds of the Unix epoch.
#[derive(Debug, Clone, Copy, PartialEq, Eq, Structural)]
pub struct FileAttributes {
    pub created: i64,
    pub last_accessed: i64,
    pub last_wrote: i64,
}

/// An error reduced to its rendered text, for carrying a user extension's
/// failure of whatever type through one channel.
#[derive(Debug, Clone)]
pub struct BoxedError {
    text: String,
}

impl BoxedError {
    /// Boxes the rendered text of an error.
    pub fn new(text: String) -> (r: BoxedError)
        ensures
            r.message() == text,
    {
        BoxedError { text }
    }

    /// The boxed text.
    pub closed spec fn message(&self) -> String {
        self.text
    }

    /// The boxed text.
    pub fn text(&self) -> (r: &String)
        ensures
            r == self.message(),
    {
        &self.text
    }
}

/// A command a user supplies for the host to probe and run on a file.
pub trait CustomCommand {
    type Error;

    fn can_process(&self, file_name: String) -> Result<(), Self::Error>;

    fn process(&self, file_name: String) -> Result<(), Self::Error>;
}

/// Adapts a user's command to the host-facing call shape.
pub struct CommandWrapper<T>(pub T);

impl<T: CustomCommand> CommandWrapper<T> {
    /// Probes the command; the user's answer decides the status.
    pub fn can_process(&self, file_name: String) -> (r: Hresult)
        ensures
            r.0 == S_OK || r.0 == E_FAIL,
    {
        let outcome = self.0.can_process(file_name);
        crate::error::status_of(&outcome)
    }

    /// Runs the command; the user's answer decides the status.
    pub fn process(&self, file_name: String) -> (r: Hresult)
        ensures
            r.0 == S_OK || r.0 == E_FAIL,
    {
        let outcome = self.0.process(file_name);
        crate::error::status_of(&outcome)
    }
}

/// An extension a user supplies that expands one file name into the
/// objects it stands for, each handed back as a table address.
pub trait FileExpander {
    type Error;

    fn expand(&self, file_name: String) -> Result<Vec<InterfacePtr>, Self::Error>;
}

/// What a user expander's outcome looks like on the wire: the list handed
/// through untouched on success, the bare failure status on failure.
pub fn expansion_outcome<E>(res: Result<Vec<InterfacePtr>, E>) -> (r: Result<
    Vec<InterfacePtr>,
    Hresult,
>)
    ensures
        res is Ok <==> r is Ok,
        r is Ok ==> r->Ok_0 == res->Ok_0,
        r is Err ==> r->Err_0.0 == E_FAIL,
{
    match res {
        Ok(list) => Ok(list),
        Err(_) => Err(Hresult(E_FAIL)),
    }
}

/// Adapts a user's expander to the host-facing call shape: the expansion
/// comes back with a success status, a failure as a bare failure status.
pub struct FileExpanderWrapper<T>(pub T);

impl<T: FileExpander> FileExpanderWrapper<T> {
    /// Expands `file_name`; the user's answer decides between the list and
    /// the failure status.
    pub fn expand(&self, file_name: String) -> (r: Result<Vec<InterfacePtr>, Hresult>)
        ensures
            r is Err ==> r->Err_0.0 == E_FAIL,
    {
        expansion_outcome(self.0.expand(file_name))
    }
}

/// A file format a user registers: its description, its extensions, and
/// its category flags.
pub trait FileFormat {
    fn description(&self) -> String;

    fn exts(&self) -> Vec<String>;

    fn flags(&self) -> u32;
}

/// The extension list in the host's wire form: every entry followed by one
/// semicolon.
pub open spec fn joined_ext_list(exts: Seq<Seq<char>>) -> Seq<char>
    decreases exts.len(),
{
    if exts.len() == 0 {
        Seq::empty()
    } else {
        exts[0] + seq![';'] + joined_ext_list(exts.skip(1))
    }
}

/// Joins extension names into the host's wire form, each followed by one
/// semicolon.
pub fn join_ext_list(exts: &Vec<String>) -> (r: String)
    ensures
        r@ == joined_ext_list(exts@.map_values(|s: String| s@)),
{
    let ghost all = exts@.map_values(|s: String| s@);
    let mut r = String::new();
    let n = exts.len();
    let mut i: usize = 0;
    proof {
        assert(all.skip(0) == all);
    }
    while i < n
        invariant
            n == exts@.len(),
            i <= n,
            all == exts@.map_values(|s: String| s@),
            joined_ext_list(all) == r@ + joined_ext_list(all.skip(i as int)),
        decreases n - i,
    {
        r.append(exts[i].as_str());
        r.append(";");
        proof {
            reveal_strlit(";");
            assert(all.skip(i as int).skip(1) == all.skip(i + 1));
            assert(all.skip(i as int)[0] == exts@[i as int]@);
            assert(joined_ext_list(all.skip(i as int)) == all.skip(i as int)[0] + seq![';']
                + joined_ext_list(all.skip(i + 1)));
        }
        i = i + 1;
    }
    proof {
        assert(all.skip(n as int) =~= Seq::<Seq<char>>::empty());
        assert(r@ + Seq::<char>::empty() =~= r@);
    }
    r
}

/// Adapts a user's file format to the host-facing call shape.
pub struct FileFormatWrapper<T>(pub T);

impl<T: FileFormat> FileFormatWrapper<T> {
    /// The format's description, as the user supplies it.
    pub fn get_description(&self) -> String {
        self.0.description()
    }

    /// The format's extensions, joined into the host's wire form.
    pub fn get_ext_list(&self) -> String {
        let exts = self.0.exts();
        join_ext_list(&exts)
    }

    /// The format's category flags, as the user supplies them.
    pub fn get_flags(&self) -> u32 {
        self.0.flags()
    }
}

/// A provider a user supplies that fills in a file's information, from its
/// name, from its open stream, or from either.
pub enum FileInfoProviderWrapper<T, U> {
    Uri(T),
    Stream(U),
    UriAndStream(T, U),
}

impl<T> FileInfoProviderWrapper<T, ()> {
    /// A provider working from the file's name alone.
    pub fn uri(provider: T) -> (r: FileInfoProviderWrapper<T, ()>)
        ensures
            r is Uri,
            r->Uri_0 == provider,
    {
        FileInfoProviderWrapper::Uri(provider)
    }
}

impl<U> FileInfoProviderWrapper<(), U> {
    /// A provider working from the open stream alone.
    pub fn stream(provider: U) -> (r: FileInfoProviderWrapper<(), U>)
        ensures
            r is Stream,
            r->Stream_0 == provider,
    {
        FileInfoProviderWrapper::Stream(provider)
    }
}

impl<T, U> FileInfoProviderWrapper<T, U> {
    /// A provider working from either the name or the stream.
    pub fn uri_and_stream(uprovider: T, sprovider: U) -> (r: FileInfoProviderWrapper<T, U>)
        ensures
            r is UriAndStream,
            r->UriAndStream_0 == uprovider,
            r->UriAndStream_1 == sprovider,
    {
        FileInfoProviderWrapper::UriAndStream(uprovider, sprovider)
    }
}

} // verus!
