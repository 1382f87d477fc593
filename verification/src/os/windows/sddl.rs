//! Builds Windows access control lists, rendered as SDDL (Security Descriptor Definition
//! Language) strings that the Windows kernel parses into security descriptors.

use vstd::prelude::*;
use vstd::string::*;

verus! {

/// File access rights of an access control entry.
#[derive(Clone, Copy, Debug, PartialEq, Eq, Structural)]
pub enum FileRights {
    /// `FA` -- full access.
    FullAccess,
    /// `FRFW` -- file generic read + file generic write.
    ReadWrite,
    /// `FR` -- file generic read.
    Read,
    /// `FRFX` -- file generic read + execute, which on a dir means listing it and traversing into it.
    ReadTraverse,
}

/// The SDDL rights string of `rights`.
pub open spec fn file_rights_sddl(rights: FileRights) -> Seq<char> {
    match rights {
        FileRights::FullAccess => seq!['F', 'A'],
        FileRights::ReadWrite => seq!['F', 'R', 'F', 'W'],
        FileRights::Read => seq!['F', 'R'],
        FileRights::ReadTraverse => seq!['F', 'R', 'F', 'X'],
    }
}

impl FileRights {
    pub fn as_sddl(self) -> (r: &'static str)
        ensures
            r@ == file_rights_sddl(self),
    {
        match self {
            FileRights::FullAccess => {
                let r = "FA";
                proof {
                    reveal_strlit("FA");
                }
                r
            },
            FileRights::ReadWrite => {
                let r = "FRFW";
                proof {
                    reveal_strlit("FRFW");
                }
                r
            },
            FileRights::Read => {
                let r = "FR";
                proof {
                    reveal_strlit("FR");
                }
                r
            },
            FileRights::ReadTraverse => {
                let r = "FRFX";
                proof {
                    reveal_strlit("FRFX");
                }
                r
            },
        }
    }
}

/// A two-letter SDDL trustee alias.
#[derive(Clone, Copy, Debug)]
pub struct Trustee(&'static str);

impl View for Trustee {
    type V = Seq<char>;

    /// The alias.
    closed spec fn view(&self) -> Seq<char> {
        self.0@
    }
}

impl Trustee {
    /// `SY` -- the LocalSystem account.
    pub fn local_system() -> (r: Self)
        ensures
            r@ == seq!['S', 'Y'],
    {
        let r = Trustee("SY");
        proof {
            reveal_strlit("SY");
        }
        r
    }

    /// `BA` -- the `BUILTIN\Administrators` group.
    pub fn builtin_administrators() -> (r: Self)
        ensures
            r@ == seq!['B', 'A'],
    {
        let r = Trustee("BA");
        proof {
            reveal_strlit("BA");
        }
        r
    }

    /// `BU` -- the `BUILTIN\Users` group, i.e. every local user, including the one running the GUI.
    pub fn builtin_users() -> (r: Self)
        ensures
            r@ == seq!['B', 'U'],
    {
        let r = Trustee("BU");
        proof {
            reveal_strlit("BU");
        }
        r
    }

    /// `IU` -- `NT AUTHORITY\INTERACTIVE`, i.e. users logged on interactively (console or RDP),
    /// excluding network logons and service accounts.
    pub fn interactive() -> (r: Self)
        ensures
            r@ == seq!['I', 'U'],
    {
        let r = Trustee("IU");
        proof {
            reveal_strlit("IU");
        }
        r
    }

    /// `OW` -- OWNER RIGHTS, which resolves to whoever owns the object, so the creator keeps access
    /// without naming a specific account.
    pub fn owner_rights() -> (r: Self)
        ensures
            r@ == seq!['O', 'W'],
    {
        let r = Trustee("OW");
        proof {
            reveal_strlit("OW");
        }
        r
    }

    pub fn as_sddl(self) -> (r: &'static str)
        ensures
            r@ == self@,
    {
        self.0
    }
}

/// Which children of a directory inherit an access control entry.
#[derive(Clone, Copy, Debug, PartialEq, Eq, Structural)]
pub enum Inherit {
    /// No inherit flags: the ACE applies to this object alone.
    ThisObjectOnly,
    /// `CI` -- child dirs, at any depth.
    Dirs,
    /// `OI` -- child files, at any depth.
    Files,
    /// `OICI` -- both.
    DirsAndFiles,
}

/// The SDDL inheritance flags of `inherit`.
pub open spec fn inherit_sddl(inherit: Inherit) -> Seq<char> {
    match inherit {
        Inherit::ThisObjectOnly => Seq::empty(),
        Inherit::Dirs => seq!['C', 'I'],
        Inherit::Files => seq!['O', 'I'],
        Inherit::DirsAndFiles => seq!['O', 'I', 'C', 'I'],
    }
}

impl Inherit {
    pub fn as_sddl(self) -> (r: &'static str)
        ensures
            r@ == inherit_sddl(self),
    {
        match self {
            Inherit::ThisObjectOnly => {
                let r = "";
                proof {
                    reveal_strlit("");
                }
                r
            },
            Inherit::Dirs => {
                let r = "CI";
                proof {
                    reveal_strlit("CI");
                }
                r
            },
            Inherit::Files => {
                let r = "OI";
                proof {
                    reveal_strlit("OI");
                }
                r
            },
            Inherit::DirsAndFiles => {
                let r = "OICI";
                proof {
                    reveal_strlit("OICI");
                }
                r
            },
        }
    }
}

/// The ACE `(A;<inherit>;<rights>;;;<trustee>)`: allow `rights` to `trustee`.
pub open spec fn allow_ace_sddl(rights: FileRights, trustee: Seq<char>, inherit: Inherit) -> Seq<char> {
    seq!['(', 'A', ';'] + inherit_sddl(inherit) + seq![';'] + file_rights_sddl(rights) + seq![
        ';',
        ';',
        ';',
    ] + trustee + seq![')']
}

/// The conditional ACE `(XA;;<rights>;;;WD;(WIN://SYSAPPID Contains "<pfn>"))`: allow `rights`
/// to the packaged app with package family name `pfn`.
pub open spec fn packaged_allow_ace_sddl(rights: FileRights, pfn: Seq<char>) -> Seq<char> {
    seq!['(', 'X', 'A', ';', ';'] + file_rights_sddl(rights) + seq![
        ';',
        ';',
        ';',
        'W',
        'D',
        ';',
        '(',
        'W',
        'I',
        'N',
        ':',
        '/',
        '/',
        'S',
        'Y',
        'S',
        'A',
        'P',
        'P',
        'I',
        'D',
        ' ',
        'C',
        'o',
        'n',
        't',
        'a',
        'i',
        'n',
        's',
        ' ',
        '"',
    ] + pfn + seq!['"', ')', ')']
}

/// Whether a package family name can stand inside the quotes of an SDDL conditional: ASCII letters,
/// digits, `.` and `_` only.
pub open spec fn is_safe_pfn(pfn: Seq<char>) -> bool {
    forall|i: int|
        0 <= i < pfn.len() ==> {
            let c = #[trigger] pfn[i];
            ('a' <= c <= 'z') || ('A' <= c <= 'Z') || ('0' <= c <= '9') || c == '.' || c == '_'
        }
}

/// The ACEs of `aces`, back to back.
pub open spec fn concat_aces(aces: Seq<Seq<char>>) -> Seq<char>
    decreases aces.len(),
{
    if aces.len() == 0 {
        Seq::empty()
    } else {
        concat_aces(aces.drop_last()) + aces.last()
    }
}

/// The SDDL of a protected DACL with the ACEs `aces`: `D:P` drops whatever the object would
/// inherit from its parent.
pub open spec fn dacl_sddl(aces: Seq<Seq<char>>) -> Seq<char> {
    seq!['D', ':', 'P'] + concat_aces(aces)
}

enum Ace {
    Allow { rights: FileRights, trustee: Trustee, inherit: Inherit },
    PackagedAllow { rights: FileRights, pfn: &'static str },
}

impl View for Ace {
    type V = Seq<char>;

    /// The ACE's SDDL.
    closed spec fn view(&self) -> Seq<char> {
        match *self {
            Ace::Allow { rights, trustee, inherit } => allow_ace_sddl(rights, trustee@, inherit),
            Ace::PackagedAllow { rights, pfn } => packaged_allow_ace_sddl(rights, pfn@),
        }
    }
}

/// Discretionary Access Control List builder.
pub struct DACL {
    aces: Vec<Ace>,
}

impl View for DACL {
    /// The SDDL of each ACE, in order.
    type V = Seq<Seq<char>>;

    closed spec fn view(&self) -> Seq<Seq<char>> {
        self.aces@.map_values(|a: Ace| a@)
    }
}

impl DACL {
    /// A DACL without ACEs.
    pub fn new() -> (r: Self)
        ensures
            r@ == Seq::<Seq<char>>::empty(),
    {
        let r = DACL { aces: Vec::new() };
        assert(r@ =~= Seq::<Seq<char>>::empty());
        r
    }

    /// Adds a plain `(A;<inherit>;<rights>;;;<trustee>)` ACE.
    pub fn allow(self, rights: FileRights, trustee: Trustee, inherit: Inherit) -> (r: Self)
        ensures
            r@ == self@.push(allow_ace_sddl(rights, trustee@, inherit)),
    {
        let mut aces = self.aces;
        aces.push(Ace::Allow { rights, trustee, inherit });
        let r = DACL { aces };
        assert(r@ =~= self@.push(allow_ace_sddl(rights, trustee@, inherit)));
        r
    }

    /// Adds a conditional ACE that allows `rights` to the packaged app with package family name
    /// `pfn`.
    pub fn allow_packaged(self, rights: FileRights, pfn: &'static str) -> (r: Self)
        requires
            is_safe_pfn(pfn@),
        ensures
            r@ == self@.push(packaged_allow_ace_sddl(rights, pfn@)),
    {
        let mut aces = self.aces;
        aces.push(Ace::PackagedAllow { rights, pfn });
        let r = DACL { aces };
        assert(r@ =~= self@.push(packaged_allow_ace_sddl(rights, pfn@)));
        r
    }

    /// The SDDL string of this DACL.
    pub fn to_string(&self) -> (r: String)
        ensures
            r@ == dacl_sddl(self@),
    {
        let mut s = String::from_str("D:P");
        proof {
            reveal_strlit("D:P");
        }
        let mut i: usize = 0;
        while i < self.aces.len()
            invariant
                i <= self.aces@.len(),
                s@ == seq!['D', ':', 'P'] + concat_aces(self@.subrange(0, i as int)),
            decreases self.aces@.len() - i,
        {
            let ghost before = s@;
            match &self.aces[i] {
                Ace::Allow { rights, trustee, inherit } => {
                    s.append("(A;");
                    s.append(inherit.as_sddl());
                    s.append(";");
                    s.append(rights.as_sddl());
                    s.append(";;;");
                    s.append(trustee.as_sddl());
                    s.append(")");
                    proof {
                        reveal_strlit("(A;");
                        reveal_strlit(";");
                        reveal_strlit(";;;");
                        reveal_strlit(")");
                        assert(s@ =~= before + allow_ace_sddl(*rights, trustee@, *inherit));
                    }
                },
                Ace::PackagedAllow { rights, pfn } => {
                    s.append("(XA;;");
                    s.append(rights.as_sddl());
                    s.append(";;;WD;(WIN://SYSAPPID Contains \"");
                    s.append(pfn);
                    s.append("\"))");
                    proof {
                        reveal_strlit("(XA;;");
                        reveal_strlit(";;;WD;(WIN://SYSAPPID Contains \"");
                        reveal_strlit("\"))");
                        assert(s@ =~= before + packaged_allow_ace_sddl(*rights, pfn@));
                    }
                },
            }
            proof {
                assert(self@.subrange(0, i + 1).drop_last() =~= self@.subrange(0, i as int));
                assert(self@[i as int] == self.aces@[i as int]@);
            }
            i = i + 1;
        }
        assert(self@.subrange(0, i as int) =~= self@);
        s
    }
}

/// The DACL of a service debug bundle directory: full access for the directory's owner, the
/// service and administrators; list and traverse for local users on directories, read on files.
/// Every ACE is inheritable, so entries written into the bundle come out with these rights already.
pub fn users_readable_dir_dacl() -> (r: DACL)
    ensures
        r@ == seq![
            allow_ace_sddl(FileRights::FullAccess, seq!['O', 'W'], Inherit::DirsAndFiles),
            allow_ace_sddl(FileRights::FullAccess, seq!['S', 'Y'], Inherit::DirsAndFiles),
            allow_ace_sddl(FileRights::FullAccess, seq!['B', 'A'], Inherit::DirsAndFiles),
            allow_ace_sddl(FileRights::ReadTraverse, seq!['B', 'U'], Inherit::Dirs),
            allow_ace_sddl(FileRights::Read, seq!['B', 'U'], Inherit::Files),
        ],
{
    let r = DACL::new().allow(FileRights::FullAccess, Trustee::owner_rights(), Inherit::DirsAndFiles).allow(
        FileRights::FullAccess,
        Trustee::local_system(),
        Inherit::DirsAndFiles,
    ).allow(FileRights::FullAccess, Trustee::builtin_administrators(), Inherit::DirsAndFiles).allow(
        FileRights::ReadTraverse,
        Trustee::builtin_users(),
        Inherit::Dirs,
    ).allow(FileRights::Read, Trustee::builtin_users(), Inherit::Files);
    assert(r@ =~= seq![
        allow_ace_sddl(FileRights::FullAccess, seq!['O', 'W'], Inherit::DirsAndFiles),
        allow_ace_sddl(FileRights::FullAccess, seq!['S', 'Y'], Inherit::DirsAndFiles),
        allow_ace_sddl(FileRights::FullAccess, seq!['B', 'A'], Inherit::DirsAndFiles),
        allow_ace_sddl(FileRights::ReadTraverse, seq!['B', 'U'], Inherit::Dirs),
        allow_ace_sddl(FileRights::Read, seq!['B', 'U'], Inherit::Files),
    ]);
    r
}

/// The UTF-16 code units of the character `c`: one unit below U+10000, else a surrogate pair.
pub open spec fn utf16_units(c: char) -> Seq<u16> {
    let v = c as u32;
    if v < 0x1_0000 {
        seq![v as u16]
    } else {
        seq![(0xd800 + (v - 0x1_0000) / 0x400) as u16, (0xdc00 + (v - 0x1_0000) % 0x400) as u16]
    }
}

/// The UTF-16 encoding of `s`.
pub open spec fn utf16_of(s: Seq<char>) -> Seq<u16>
    decreases s.len(),
{
    if s.len() == 0 {
        Seq::empty()
    } else {
        utf16_of(s.drop_last()) + utf16_units(s.last())
    }
}

/// `s` in UTF-16: each character as one code unit, or as a surrogate pair above U+FFFF.
pub fn encode_utf16(s: &str) -> (r: Vec<u16>)
    ensures
        r@ == utf16_of(s@),
{
    let len = s.unicode_len();
    let mut r: Vec<u16> = Vec::new();
    let mut i: usize = 0;
    while i < len
        invariant
            len == s@.len(),
            i <= len,
            r@ == utf16_of(s@.take(i as int)),
        decreases len - i,
    {
        let c = s.get_char(i);
        let v = c as u32;
        let ghost before = r@;
        if v < 0x1_0000 {
            r.push(v as u16);
        } else {
            r.push((0xd800 + (v - 0x1_0000) / 0x400) as u16);
            r.push((0xdc00 + (v - 0x1_0000) % 0x400) as u16);
        }
        proof {
            let t = s@.take(i + 1);
            assert(t.drop_last() =~= s@.take(i as int));
            assert(t.last() == c);
            assert(r@ =~= before + utf16_units(c));
        }
        i = i + 1;
    }
    proof {
        assert(s@.take(len as int) =~= s@);
    }
    r
}

/// `s` in UTF-16, terminated by a NUL code unit, as Win32 wide-string APIs expect.
pub fn wide_nul(s: &str) -> (r: Vec<u16>)
    ensures
        r@ == utf16_of(s@).push(0),
{
    let mut r = encode_utf16(s);
    r.push(0);
    r
}

} // verus!
