//! File modes, permissions, and the flag words of the file operations.

use vstd::prelude::*;

verus! {

/// Set-user-ID flag: a process that executes the file takes the user ID of its owner.
pub const S_ISUID: u16 = 0o4000;

/// Set-group-ID flag: a process that executes the file takes the group ID of its owner.
pub const S_ISGID: u16 = 0o2000;

/// Sticky bit.
pub const S_ISVTX: u16 = 0o1000;

/// The nine permission bits.
pub const S_IRWXA: u16 = 0o777;

/// All the bits that a file mode can hold.
pub const MODE_MASK: u16 = 0o7777;

/// File mode: the permission bits of the owner, of the group and of all others,
/// and the set-user-ID, set-group-ID and sticky flags.
#[derive(Clone, Copy, Debug, PartialEq, Eq, Structural, Hash)]
pub struct FileMode {
    bits: u16,
}

impl View for FileMode {
    type V = u16;

    /// The bits that are set.
    closed spec fn view(&self) -> u16 {
        self.bits
    }
}

impl FileMode {
    #[verifier::type_invariant]
    spec fn within_mask(self) -> bool {
        self.bits & !MODE_MASK == 0
    }

    proof fn lemma_members_within_mask()
        by (bit_vector)
        ensures
            0u16 & !MODE_MASK == 0,
            MODE_MASK & !MODE_MASK == 0,
            S_ISUID & !MODE_MASK == 0,
            S_ISGID & !MODE_MASK == 0,
            S_ISVTX & !MODE_MASK == 0,
            S_IRWXA & !MODE_MASK == 0,
    {
    }

    /// The value with bits `bits`.
    pub closed spec fn of(bits: u16) -> FileMode {
        FileMode { bits }
    }

    /// The bits of the value that `of` makes are the bits it was given.
    pub broadcast proof fn lemma_of(bits: u16)
        ensures
            (#[trigger] FileMode::of(bits))@ == bits,
    {
    }

    /// A value is the one that `of` makes of its bits.
    pub broadcast proof fn lemma_view(self)
        ensures
            #[trigger] FileMode::of(self@) == self,
    {
    }

    /// The value with no bit set.
    pub fn empty() -> (r: FileMode)
        ensures
            r@ == 0,
    {
        proof {
            Self::lemma_members_within_mask();
        }
        FileMode { bits: 0 }
    }

    /// The value with every bit set.
    pub fn all() -> (r: FileMode)
        ensures
            r@ == MODE_MASK,
    {
        proof {
            Self::lemma_members_within_mask();
        }
        FileMode { bits: MODE_MASK }
    }

    /// Set-user-ID flag: a process that executes the file takes the user ID of its owner.
    pub fn suid() -> (r: FileMode)
        ensures
            r@ == S_ISUID,
    {
        proof {
            Self::lemma_members_within_mask();
        }
        FileMode { bits: S_ISUID }
    }

    /// Set-group-ID flag: a process that executes the file takes the group ID of its owner.
    pub fn sgid() -> (r: FileMode)
        ensures
            r@ == S_ISGID,
    {
        proof {
            Self::lemma_members_within_mask();
        }
        FileMode { bits: S_ISGID }
    }

    /// Sticky bit.
    pub fn svtx() -> (r: FileMode)
        ensures
            r@ == S_ISVTX,
    {
        proof {
            Self::lemma_members_within_mask();
        }
        FileMode { bits: S_ISVTX }
    }

    /// The nine permission bits.
    pub fn rwx_all() -> (r: FileMode)
        ensures
            r@ == S_IRWXA,
    {
        proof {
            Self::lemma_members_within_mask();
        }
        FileMode { bits: S_IRWXA }
    }

    /// The bits that are set.
    pub fn bits(self) -> (b: u16)
        ensures
            b == self@,
            b & !MODE_MASK == 0,
    {
        proof {
            use_type_invariant(&self);
        }
        self.bits
    }

    /// The value with bits `bits`, unless one of them is not in the mask.
    pub fn from_bits(bits: u16) -> (r: Option<FileMode>)
        ensures
            r is Some <==> bits & !MODE_MASK == 0,
            r matches Some(v) ==> v@ == bits,
    {
        if bits & !MODE_MASK == 0 {
            Some(FileMode { bits })
        } else {
            None
        }
    }

    /// The value with those of `bits` that are in the mask.
    pub fn from_bits_truncate(bits: u16) -> (r: FileMode)
        ensures
            r@ == bits & MODE_MASK,
    {
        assert((bits & MODE_MASK) & !MODE_MASK == 0) by (bit_vector);
        FileMode { bits: bits & MODE_MASK }
    }

    /// Whether no bit is set.
    pub fn is_empty(self) -> (b: bool)
        ensures
            b == (self@ == 0),
    {
        self.bits == 0
    }

    /// Whether every bit of `other` is set.
    pub fn contains(self, other: FileMode) -> (b: bool)
        ensures
            b == (self@ & other@ == other@),
    {
        self.bits & other.bits == other.bits
    }

    /// The value with the bits of both.
    pub fn union(self, other: FileMode) -> (r: FileMode)
        ensures
            r@ == self@ | other@,
    {
        proof {
            use_type_invariant(&self);
            use_type_invariant(&other);
        }
        let a = self.bits;
        let b = other.bits;
        assert((a | b) & !MODE_MASK == 0) by (bit_vector)
            requires
                a & !MODE_MASK == 0,
                b & !MODE_MASK == 0,
        ;
        FileMode { bits: a | b }
    }
}

impl core::ops::BitOr for FileMode {
    type Output = FileMode;

    fn bitor(self, other: FileMode) -> (r: FileMode) {
        self.union(other)
    }
}

impl vstd::std_specs::ops::BitOrSpecImpl for FileMode {
    open spec fn obeys_bitor_spec() -> bool {
        true
    }

    open spec fn bitor_req(self, other: FileMode) -> bool {
        true
    }

    open spec fn bitor_spec(self, other: FileMode) -> FileMode {
        FileMode::of(self@ | other@)
    }
}

/// Permission to read.
pub const PERM_READ: u8 = 4;

/// Permission to write.
pub const PERM_WRITE: u8 = 2;

/// Permission to execute.
pub const PERM_EXEC: u8 = 1;

/// All the bits that a permission can hold.
pub const PERM_MASK: u8 = 7;

/// What one agent may do with a file.
#[derive(Clone, Copy, Debug, PartialEq, Eq, Structural, Hash)]
pub struct FilePermission {
    bits: u8,
}

impl View for FilePermission {
    type V = u8;

    /// The bits that are set.
    closed spec fn view(&self) -> u8 {
        self.bits
    }
}

impl FilePermission {
    #[verifier::type_invariant]
    spec fn within_mask(self) -> bool {
        self.bits & !PERM_MASK == 0
    }

    proof fn lemma_members_within_mask()
        by (bit_vector)
        ensures
            0u8 & !PERM_MASK == 0,
            PERM_MASK & !PERM_MASK == 0,
            PERM_READ & !PERM_MASK == 0,
            PERM_WRITE & !PERM_MASK == 0,
            PERM_EXEC & !PERM_MASK == 0,
    {
    }

    /// The value with bits `bits`.
    pub closed spec fn of(bits: u8) -> FilePermission {
        FilePermission { bits }
    }

    /// The bits of the value that `of` makes are the bits it was given.
    pub broadcast proof fn lemma_of(bits: u8)
        ensures
            (#[trigger] FilePermission::of(bits))@ == bits,
    {
    }

    /// A value is the one that `of` makes of its bits.
    pub broadcast proof fn lemma_view(self)
        ensures
            #[trigger] FilePermission::of(self@) == self,
    {
    }

    /// The value with no bit set.
    pub fn empty() -> (r: FilePermission)
        ensures
            r@ == 0,
    {
        proof {
            Self::lemma_members_within_mask();
        }
        FilePermission { bits: 0 }
    }

    /// The value with every bit set.
    pub fn all() -> (r: FilePermission)
        ensures
            r@ == PERM_MASK,
    {
        proof {
            Self::lemma_members_within_mask();
        }
        FilePermission { bits: PERM_MASK }
    }

    /// Permission to read.
    pub fn read() -> (r: FilePermission)
        ensures
            r@ == PERM_READ,
    {
        proof {
            Self::lemma_members_within_mask();
        }
        FilePermission { bits: PERM_READ }
    }

    /// Permission to write.
    pub fn write() -> (r: FilePermission)
        ensures
            r@ == PERM_WRITE,
    {
        proof {
            Self::lemma_members_within_mask();
        }
        FilePermission { bits: PERM_WRITE }
    }

    /// Permission to execute.
    pub fn exec() -> (r: FilePermission)
        ensures
            r@ == PERM_EXEC,
    {
        proof {
            Self::lemma_members_within_mask();
        }
        FilePermission { bits: PERM_EXEC }
    }

    /// The bits that are set.
    pub fn bits(self) -> (b: u8)
        ensures
            b == self@,
            b & !PERM_MASK == 0,
    {
        proof {
            use_type_invariant(&self);
        }
        self.bits
    }

    /// The value with bits `bits`, unless one of them is not in the mask.
    pub fn from_bits(bits: u8) -> (r: Option<FilePermission>)
        ensures
            r is Some <==> bits & !PERM_MASK == 0,
            r matches Some(v) ==> v@ == bits,
    {
        if bits & !PERM_MASK == 0 {
            Some(FilePermission { bits })
        } else {
            None
        }
    }

    /// The value with those of `bits` that are in the mask.
    pub fn from_bits_truncate(bits: u8) -> (r: FilePermission)
        ensures
            r@ == bits & PERM_MASK,
    {
        assert((bits & PERM_MASK) & !PERM_MASK == 0) by (bit_vector);
        FilePermission { bits: bits & PERM_MASK }
    }

    /// Whether no bit is set.
    pub fn is_empty(self) -> (b: bool)
        ensures
            b == (self@ == 0),
    {
        self.bits == 0
    }

    /// Whether every bit of `other` is set.
    pub fn contains(self, other: FilePermission) -> (b: bool)
        ensures
            b == (self@ & other@ == other@),
    {
        self.bits & other.bits == other.bits
    }

    /// The value with the bits of both.
    pub fn union(self, other: FilePermission) -> (r: FilePermission)
        ensures
            r@ == self@ | other@,
    {
        proof {
            use_type_invariant(&self);
            use_type_invariant(&other);
        }
        let a = self.bits;
        let b = other.bits;
        assert((a | b) & !PERM_MASK == 0) by (bit_vector)
            requires
                a & !PERM_MASK == 0,
                b & !PERM_MASK == 0,
        ;
        FilePermission { bits: a | b }
    }
}

impl core::ops::BitOr for FilePermission {
    type Output = FilePermission;

    fn bitor(self, other: FilePermission) -> (r: FilePermission) {
        self.union(other)
    }
}

impl vstd::std_specs::ops::BitOrSpecImpl for FilePermission {
    open spec fn obeys_bitor_spec() -> bool {
        true
    }

    open spec fn bitor_req(self, other: FilePermission) -> bool {
        true
    }

    open spec fn bitor_spec(self, other: FilePermission) -> FilePermission {
        FilePermission::of(self@ | other@)
    }
}

/// Set the close-on-exec flag on the returned file descriptor.
pub const O_CLOEXEC: usize = 0o2000000;

/// Ensure the call creates the file: if the file already is, the call fails with `EEXIST`.
pub const O_EXCL: usize = 0o200;

/// Open the file in non-blocking mode: operations which would block rather return `EAGAIN`.
pub const O_NONBLOCK: usize = 0o4000;

/// The file will not become the controlling terminal of the caller.
pub const O_NOCTTY: usize = 0o400;

/// All the bits that the flags of an open can hold.
pub const OPEN_FLAGS_MASK: usize = 0o2004600;

/// File creation and status flags.
#[derive(Clone, Copy, Debug, PartialEq, Eq, Structural, Hash)]
pub struct OpenFlags {
    bits: usize,
}

impl View for OpenFlags {
    type V = usize;

    /// The bits that are set.
    closed spec fn view(&self) -> usize {
        self.bits
    }
}

impl OpenFlags {
    #[verifier::type_invariant]
    spec fn within_mask(self) -> bool {
        self.bits & !OPEN_FLAGS_MASK == 0
    }

    proof fn lemma_members_within_mask()
        by (bit_vector)
        ensures
            0usize & !OPEN_FLAGS_MASK == 0,
            OPEN_FLAGS_MASK & !OPEN_FLAGS_MASK == 0,
            O_CLOEXEC & !OPEN_FLAGS_MASK == 0,
            O_EXCL & !OPEN_FLAGS_MASK == 0,
            O_NONBLOCK & !OPEN_FLAGS_MASK == 0,
            O_NOCTTY & !OPEN_FLAGS_MASK == 0,
    {
    }

    /// The value with bits `bits`.
    pub closed spec fn of(bits: usize) -> OpenFlags {
        OpenFlags { bits }
    }

    /// The bits of the value that `of` makes are the bits it was given.
    pub broadcast proof fn lemma_of(bits: usize)
        ensures
            (#[trigger] OpenFlags::of(bits))@ == bits,
    {
    }

    /// A value is the one that `of` makes of its bits.
    pub broadcast proof fn lemma_view(self)
        ensures
            #[trigger] OpenFlags::of(self@) == self,
    {
    }

    /// The value with no bit set.
    pub fn empty() -> (r: OpenFlags)
        ensures
            r@ == 0,
    {
        proof {
            Self::lemma_members_within_mask();
        }
        OpenFlags { bits: 0 }
    }

    /// The value with every bit set.
    pub fn all() -> (r: OpenFlags)
        ensures
            r@ == OPEN_FLAGS_MASK,
    {
        proof {
            Self::lemma_members_within_mask();
        }
        OpenFlags { bits: OPEN_FLAGS_MASK }
    }

    /// Set the close-on-exec flag on the returned file descriptor.
    pub fn cloexec() -> (r: OpenFlags)
        ensures
            r@ == O_CLOEXEC,
    {
        proof {
            Self::lemma_members_within_mask();
        }
        OpenFlags { bits: O_CLOEXEC }
    }

    /// Ensure the call creates the file: if the file already is, the call fails with `EEXIST`.
    pub fn excl() -> (r: OpenFlags)
        ensures
            r@ == O_EXCL,
    {
        proof {
            Self::lemma_members_within_mask();
        }
        OpenFlags { bits: O_EXCL }
    }

    /// Open the file in non-blocking mode: operations which would block rather return `EAGAIN`.
    pub fn nonblock() -> (r: OpenFlags)
        ensures
            r@ == O_NONBLOCK,
    {
        proof {
            Self::lemma_members_within_mask();
        }
        OpenFlags { bits: O_NONBLOCK }
    }

    /// The file will not become the controlling terminal of the caller.
    pub fn noctty() -> (r: OpenFlags)
        ensures
            r@ == O_NOCTTY,
    {
        proof {
            Self::lemma_members_within_mask();
        }
        OpenFlags { bits: O_NOCTTY }
    }

    /// The bits that are set.
    pub fn bits(self) -> (b: usize)
        ensures
            b == self@,
            b & !OPEN_FLAGS_MASK == 0,
    {
        proof {
            use_type_invariant(&self);
        }
        self.bits
    }

    /// The value with bits `bits`, unless one of them is not in the mask.
    pub fn from_bits(bits: usize) -> (r: Option<OpenFlags>)
        ensures
            r is Some <==> bits & !OPEN_FLAGS_MASK == 0,
            r matches Some(v) ==> v@ == bits,
    {
        if bits & !OPEN_FLAGS_MASK == 0 {
            Some(OpenFlags { bits })
        } else {
            None
        }
    }

    /// The value with those of `bits` that are in the mask.
    pub fn from_bits_truncate(bits: usize) -> (r: OpenFlags)
        ensures
            r@ == bits & OPEN_FLAGS_MASK,
    {
        assert((bits & OPEN_FLAGS_MASK) & !OPEN_FLAGS_MASK == 0) by (bit_vector);
        OpenFlags { bits: bits & OPEN_FLAGS_MASK }
    }

    /// Whether no bit is set.
    pub fn is_empty(self) -> (b: bool)
        ensures
            b == (self@ == 0),
    {
        self.bits == 0
    }

    /// Whether every bit of `other` is set.
    pub fn contains(self, other: OpenFlags) -> (b: bool)
        ensures
            b == (self@ & other@ == other@),
    {
        self.bits & other.bits == other.bits
    }

    /// The value with the bits of both.
    pub fn union(self, other: OpenFlags) -> (r: OpenFlags)
        ensures
            r@ == self@ | other@,
    {
        proof {
            use_type_invariant(&self);
            use_type_invariant(&other);
        }
        let a = self.bits;
        let b = other.bits;
        assert((a | b) & !OPEN_FLAGS_MASK == 0) by (bit_vector)
            requires
                a & !OPEN_FLAGS_MASK == 0,
                b & !OPEN_FLAGS_MASK == 0,
        ;
        OpenFlags { bits: a | b }
    }
}

impl core::ops::BitOr for OpenFlags {
    type Output = OpenFlags;

    fn bitor(self, other: OpenFlags) -> (r: OpenFlags) {
        self.union(other)
    }
}

impl vstd::std_specs::ops::BitOrSpecImpl for OpenFlags {
    open spec fn obeys_bitor_spec() -> bool {
        true
    }

    open spec fn bitor_req(self, other: OpenFlags) -> bool {
        true
    }

    open spec fn bitor_spec(self, other: OpenFlags) -> OpenFlags {
        OpenFlags::of(self@ | other@)
    }
}

/// Follow symbolic links.
pub const AT_SYMLINK_FOLLOW: usize = 0x400;

/// All the bits that the flags of a path operation can hold.
pub const AT_FLAGS_MASK: usize = 0x400;

/// Flags modifying the behaviour of the file operations that take a path.
#[derive(Clone, Copy, Debug, PartialEq, Eq, Structural, Hash)]
pub struct AtFlags {
    bits: usize,
}

impl View for AtFlags {
    type V = usize;

    /// The bits that are set.
    closed spec fn view(&self) -> usize {
        self.bits
    }
}

impl AtFlags {
    #[verifier::type_invariant]
    spec fn within_mask(self) -> bool {
        self.bits & !AT_FLAGS_MASK == 0
    }

    proof fn lemma_members_within_mask()
        by (bit_vector)
        ensures
            0usize & !AT_FLAGS_MASK == 0,
            AT_FLAGS_MASK & !AT_FLAGS_MASK == 0,
            AT_SYMLINK_FOLLOW & !AT_FLAGS_MASK == 0,
    {
    }

    /// The value with bits `bits`.
    pub closed spec fn of(bits: usize) -> AtFlags {
        AtFlags { bits }
    }

    /// The bits of the value that `of` makes are the bits it was given.
    pub broadcast proof fn lemma_of(bits: usize)
        ensures
            (#[trigger] AtFlags::of(bits))@ == bits,
    {
    }

    /// A value is the one that `of` makes of its bits.
    pub broadcast proof fn lemma_view(self)
        ensures
            #[trigger] AtFlags::of(self@) == self,
    {
    }

    /// The value with no bit set.
    pub fn empty() -> (r: AtFlags)
        ensures
            r@ == 0,
    {
        proof {
            Self::lemma_members_within_mask();
        }
        AtFlags { bits: 0 }
    }

    /// The value with every bit set.
    pub fn all() -> (r: AtFlags)
        ensures
            r@ == AT_FLAGS_MASK,
    {
        proof {
            Self::lemma_members_within_mask();
        }
        AtFlags { bits: AT_FLAGS_MASK }
    }

    /// Follow symbolic links.
    pub fn follow() -> (r: AtFlags)
        ensures
            r@ == AT_SYMLINK_FOLLOW,
    {
        proof {
            Self::lemma_members_within_mask();
        }
        AtFlags { bits: AT_SYMLINK_FOLLOW }
    }

    /// The bits that are set.
    pub fn bits(self) -> (b: usize)
        ensures
            b == self@,
            b & !AT_FLAGS_MASK == 0,
    {
        proof {
            use_type_invariant(&self);
        }
        self.bits
    }

    /// The value with bits `bits`, unless one of them is not in the mask.
    pub fn from_bits(bits: usize) -> (r: Option<AtFlags>)
        ensures
            r is Some <==> bits & !AT_FLAGS_MASK == 0,
            r matches Some(v) ==> v@ == bits,
    {
        if bits & !AT_FLAGS_MASK == 0 {
            Some(AtFlags { bits })
        } else {
            None
        }
    }

    /// The value with those of `bits` that are in the mask.
    pub fn from_bits_truncate(bits: usize) -> (r: AtFlags)
        ensures
            r@ == bits & AT_FLAGS_MASK,
    {
        assert((bits & AT_FLAGS_MASK) & !AT_FLAGS_MASK == 0) by (bit_vector);
        AtFlags { bits: bits & AT_FLAGS_MASK }
    }

    /// Whether no bit is set.
    pub fn is_empty(self) -> (b: bool)
        ensures
            b == (self@ == 0),
    {
        self.bits == 0
    }

    /// Whether every bit of `other` is set.
    pub fn contains(self, other: AtFlags) -> (b: bool)
        ensures
            b == (self@ & other@ == other@),
    {
        self.bits & other.bits == other.bits
    }

    /// The value with the bits of both.
    pub fn union(self, other: AtFlags) -> (r: AtFlags)
        ensures
            r@ == self@ | other@,
    {
        proof {
            use_type_invariant(&self);
            use_type_invariant(&other);
        }
        let a = self.bits;
        let b = other.bits;
        assert((a | b) & !AT_FLAGS_MASK == 0) by (bit_vector)
            requires
                a & !AT_FLAGS_MASK == 0,
                b & !AT_FLAGS_MASK == 0,
        ;
        AtFlags { bits: a | b }
    }
}

impl core::ops::BitOr for AtFlags {
    type Output = AtFlags;

    fn bitor(self, other: AtFlags) -> (r: AtFlags) {
        self.union(other)
    }
}

impl vstd::std_specs::ops::BitOrSpecImpl for AtFlags {
    open spec fn obeys_bitor_spec() -> bool {
        true
    }

    open spec fn bitor_req(self, other: AtFlags) -> bool {
        true
    }

    open spec fn bitor_spec(self, other: AtFlags) -> AtFlags {
        AtFlags::of(self@ | other@)
    }
}

/// Which agent has the permissions.
#[derive(Clone, Copy, Debug, PartialEq, Eq, Structural, PartialOrd, Ord, Hash)]
pub enum FileModeSection {
    /// Owning user
    USR,
    /// Owning group
    GRP,
    /// All others
    OTH,
}

impl FileModeSection {
    /// The position, in a file mode, of the lowest permission bit of the
    /// section.
    pub open spec fn spec_pos(self) -> u32 {
        match self {
            FileModeSection::USR => 6,
            FileModeSection::GRP => 3,
            FileModeSection::OTH => 0,
        }
    }

    /// The position, in a file mode, of the lowest permission bit of the
    /// section.
    pub fn pos(self) -> (p: u32)
        ensures
            p == self.spec_pos(),
    {
        match self {
            FileModeSection::USR => 6,
            FileModeSection::GRP => 3,
            FileModeSection::OTH => 0,
        }
    }
}

/// The bits of the file mode that gives permission `perm` to the agent whose
/// bits start at position `pos`.
pub open spec fn shifted_permission(perm: u8, pos: u32) -> u16 {
    (perm as u16) << pos
}

/// The permission that the bits of `mode` from position `pos` on give: of the
/// three bits of a section the lower two, write and execute, are read.
pub open spec fn section_permission(mode: u16, pos: u32) -> u8 {
    ((mode >> pos) & 3) as u8
}

proof fn lemma_shifted_permission_within_mask(perm: u8, pos: u32)
    by (bit_vector)
    requires
        perm & !PERM_MASK == 0,
        pos == 0 || pos == 3 || pos == 6,
    ensures
        ((perm as u16) << pos) & MODE_MASK == (perm as u16) << pos,
{
}

proof fn lemma_section_permission_within_mask(mode: u16, pos: u32)
    by (bit_vector)
    requires
        pos == 0 || pos == 3 || pos == 6,
    ensures
        (((mode >> pos) & 3) as u8) & PERM_MASK == ((mode >> pos) & 3) as u8,
{
}

impl core::ops::Shl<FileModeSection> for FilePermission {
    type Output = FileMode;

    /// The file mode that gives the permission to the agent `sect`, and
    /// nothing to the others.
    fn shl(self, sect: FileModeSection) -> (m: FileMode) {
        let pos = sect.pos();
        proof {
            use_type_invariant(&self);
            lemma_shifted_permission_within_mask(self.bits, pos);
        }
        FileMode::from_bits_truncate((self.bits as u16) << pos)
    }
}

impl vstd::std_specs::ops::ShlSpecImpl<FileModeSection> for FilePermission {
    open spec fn obeys_shl_spec() -> bool {
        true
    }

    open spec fn shl_req(self, sect: FileModeSection) -> bool {
        true
    }

    open spec fn shl_spec(self, sect: FileModeSection) -> FileMode {
        FileMode::of(shifted_permission(self@, sect.spec_pos()))
    }
}

impl core::ops::Shr<FileModeSection> for FileMode {
    type Output = FilePermission;

    /// The permission that the mode gives to the agent `sect`, as far as
    /// `section_permission` reads it.
    fn shr(self, sect: FileModeSection) -> (p: FilePermission) {
        let pos = sect.pos();
        proof {
            lemma_section_permission_within_mask(self.bits, pos);
        }
        FilePermission::from_bits_truncate(((self.bits >> pos) & 3) as u8)
    }
}

impl vstd::std_specs::ops::ShrSpecImpl<FileModeSection> for FileMode {
    open spec fn obeys_shr_spec() -> bool {
        true
    }

    open spec fn shr_req(self, sect: FileModeSection) -> bool {
        true
    }

    open spec fn shr_spec(self, sect: FileModeSection) -> FilePermission {
        FilePermission::of(section_permission(self@, sect.spec_pos()))
    }
}

/// Open for reading only.
pub const O_RDONLY: usize = 0;

/// Open for writing only.
pub const O_WRONLY: usize = 1;

/// Open for reading and writing.
pub const O_RDWR: usize = 2;

/// Create the file if it is not there.
pub const O_CREAT: usize = 0o100;

/// Whether to open a file for reading or writing, together with the flags
/// that were added to it: the flag word that an open is handed.
#[derive(Clone, Copy, Debug, PartialEq, Eq, Structural, Hash)]
pub struct OpenMode {
    word: usize,
}

impl View for OpenMode {
    type V = usize;

    /// The flag word.
    closed spec fn view(&self) -> usize {
        self.word
    }
}

impl OpenMode {
    /// The open mode with flag word `word`.
    pub closed spec fn of(word: usize) -> OpenMode {
        OpenMode { word }
    }

    /// The flag word of the open mode that `of` makes is the word it was
    /// given.
    pub broadcast proof fn lemma_of(word: usize)
        ensures
            (#[trigger] OpenMode::of(word))@ == word,
    {
    }

    /// An open mode is the one that `of` makes of its flag word.
    pub broadcast proof fn lemma_view(self)
        ensures
            #[trigger] OpenMode::of(self@) == self,
    {
    }

    /// Read-only
    pub fn rd_only() -> (m: OpenMode)
        ensures
            m@ == O_RDONLY,
    {
        OpenMode { word: O_RDONLY }
    }

    /// Write-only
    pub fn wr_only() -> (m: OpenMode)
        ensures
            m@ == O_WRONLY,
    {
        OpenMode { word: O_WRONLY }
    }

    /// Read-write
    pub fn rd_wr() -> (m: OpenMode)
        ensures
            m@ == O_RDWR,
    {
        OpenMode { word: O_RDWR }
    }

    /// The flag word.
    pub fn bits(self) -> (w: usize)
        ensures
            w == self@,
    {
        self.word
    }

    /// Add the flags `flags` to the open mode.
    pub fn bitor_assign(&mut self, flags: OpenFlags)
        ensures
            final(self)@ == old(self)@ | flags@,
    {
        self.word = self.word | flags.bits();
    }

    /// Keep of the open mode what `flags` holds too.
    pub fn bitand_assign(&mut self, flags: OpenFlags)
        ensures
            final(self)@ == old(self)@ & flags@,
    {
        self.word = self.word & flags.bits();
    }

    /// Toggle the flags `flags` in the open mode.
    pub fn bitxor_assign(&mut self, flags: OpenFlags)
        ensures
            final(self)@ == old(self)@ ^ flags@,
    {
        self.word = self.word ^ flags.bits();
    }
}

impl core::ops::BitOr<OpenFlags> for OpenMode {
    type Output = OpenMode;

    fn bitor(self, flags: OpenFlags) -> (m: OpenMode) {
        OpenMode { word: self.word | flags.bits() }
    }
}

impl vstd::std_specs::ops::BitOrSpecImpl<OpenFlags> for OpenMode {
    open spec fn obeys_bitor_spec() -> bool {
        true
    }

    open spec fn bitor_req(self, flags: OpenFlags) -> bool {
        true
    }

    open spec fn bitor_spec(self, flags: OpenFlags) -> OpenMode {
        OpenMode::of(self@ | flags@)
    }
}

impl core::ops::BitAnd<OpenFlags> for OpenMode {
    type Output = OpenMode;

    fn bitand(self, flags: OpenFlags) -> (m: OpenMode) {
        OpenMode { word: self.word & flags.bits() }
    }
}

impl vstd::std_specs::ops::BitAndSpecImpl<OpenFlags> for OpenMode {
    open spec fn obeys_bitand_spec() -> bool {
        true
    }

    open spec fn bitand_req(self, flags: OpenFlags) -> bool {
        true
    }

    open spec fn bitand_spec(self, flags: OpenFlags) -> OpenMode {
        OpenMode::of(self@ & flags@)
    }
}

impl core::ops::BitXor<OpenFlags> for OpenMode {
    type Output = OpenMode;

    fn bitxor(self, flags: OpenFlags) -> (m: OpenMode) {
        OpenMode { word: self.word ^ flags.bits() }
    }
}

impl vstd::std_specs::ops::BitXorSpecImpl<OpenFlags> for OpenMode {
    open spec fn obeys_bitxor_spec() -> bool {
        true
    }

    open spec fn bitxor_req(self, flags: OpenFlags) -> bool {
        true
    }

    open spec fn bitxor_spec(self, flags: OpenFlags) -> OpenMode {
        OpenMode::of(self@ ^ flags@)
    }
}

} // verus!
