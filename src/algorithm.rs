use vstd::prelude::*;
use vstd::string::StringSliceAdditionalSpecFns;

verus! {

/// The supported checksum algorithms, ordered by family, then output size.
#[derive(Clone, Copy, Debug, Hash, PartialEq, Eq, Structural, PartialOrd, Ord)]
pub enum Algorithm {
    Crc32,
    Md5,
    Sha1,
    Sha256,
    Sha512,
    Sha3_224,
    Sha3_256,
    Sha3_384,
    Sha3_512,
}

/// ASCII case folding of one byte (`A`..=`Z` to `a`..=`z`); other bytes stay as they are.
pub open spec fn ascii_lower(b: u8) -> u8 {
    if 65 <= b && b <= 90 {
        (b + 32) as u8
    } else {
        b
    }
}

/// `input` spells `canon` when ASCII case is ignored.
pub open spec fn eq_ignore_ascii_case(input: Seq<u8>, canon: Seq<u8>) -> bool {
    input.len() == canon.len() && forall|i: int|
        0 <= i < input.len() ==> #[trigger] ascii_lower(input[i]) == canon[i]
}

fn to_ascii_lower(b: u8) -> (r: u8)
    ensures
        r == ascii_lower(b),
{
    if 65 <= b && b <= 90 {
        b + 32
    } else {
        b
    }
}

/// Compares `input` with the lower-case name `canon`, ignoring ASCII case in `input`.
fn spells(input: &[u8], canon: &[u8]) -> (r: bool)
    ensures
        r == eq_ignore_ascii_case(input@, canon@),
{
    if input.len() != canon.len() {
        return false;
    }
    let mut i: usize = 0;
    while i < input.len()
        invariant
            i <= input@.len(),
            input@.len() == canon@.len(),
            forall|j: int| 0 <= j < i ==> #[trigger] ascii_lower(input@[j]) == canon@[j],
        decreases input@.len() - i,
    {
        if to_ascii_lower(input[i]) != canon[i] {
            return false;
        }
        i += 1;
    }
    true
}

impl Algorithm {
    /// The name by which a user selects the algorithm, in lower case.
    pub open spec fn name_spec(self) -> Seq<char> {
        match self {
            Algorithm::Crc32 => seq!['c', 'r', 'c', '3', '2'],
            Algorithm::Md5 => seq!['m', 'd', '5'],
            Algorithm::Sha1 => seq!['s', 'h', 'a', '1'],
            Algorithm::Sha256 => seq!['s', 'h', 'a', '2', '5', '6'],
            Algorithm::Sha512 => seq!['s', 'h', 'a', '5', '1', '2'],
            Algorithm::Sha3_224 => seq!['s', 'h', 'a', '3', '-', '2', '2', '4'],
            Algorithm::Sha3_256 => seq!['s', 'h', 'a', '3', '-', '2', '5', '6'],
            Algorithm::Sha3_384 => seq!['s', 'h', 'a', '3', '-', '3', '8', '4'],
            Algorithm::Sha3_512 => seq!['s', 'h', 'a', '3', '-', '5', '1', '2'],
        }
    }

    /// Width in bytes of the algorithm's native output.
    pub open spec fn output_len(self) -> nat {
        match self {
            Algorithm::Crc32 => 4,
            Algorithm::Md5 => 16,
            Algorithm::Sha1 => 20,
            Algorithm::Sha256 => 32,
            Algorithm::Sha512 => 64,
            Algorithm::Sha3_224 => 28,
            Algorithm::Sha3_256 => 32,
            Algorithm::Sha3_384 => 48,
            Algorithm::Sha3_512 => 64,
        }
    }

    /// Every algorithm, in the order in which they are listed to users.
    pub open spec fn all_spec() -> Seq<Algorithm> {
        seq![
            Algorithm::Crc32,
            Algorithm::Md5,
            Algorithm::Sha1,
            Algorithm::Sha256,
            Algorithm::Sha512,
            Algorithm::Sha3_224,
            Algorithm::Sha3_256,
            Algorithm::Sha3_384,
            Algorithm::Sha3_512,
        ]
    }

    /// The user's spelling `input` (as UTF-8 bytes) selects `a`.
    pub open spec fn named(input: Seq<u8>, a: Algorithm) -> bool {
        eq_ignore_ascii_case(input, a.name_spec().map_values(|c: char| c as u8))
    }

    pub fn all() -> (r: Vec<Algorithm>)
        ensures
            r@ == Self::all_spec(),
    {
        let r = vec![
            Algorithm::Crc32,
            Algorithm::Md5,
            Algorithm::Sha1,
            Algorithm::Sha256,
            Algorithm::Sha512,
            Algorithm::Sha3_224,
            Algorithm::Sha3_256,
            Algorithm::Sha3_384,
            Algorithm::Sha3_512,
        ];
        assert(r@ =~= Self::all_spec());
        r
    }

    pub fn name(&self) -> (r: &'static str)
        ensures
            r@ == self.name_spec(),
            vstd::string::is_ascii(r),
    {
        match self {
            Algorithm::Crc32 => {
                let r = "crc32";
                proof {
                    reveal_strlit("crc32");
                }
                assert(r@ =~= self.name_spec());
                r
            },
            Algorithm::Md5 => {
                let r = "md5";
                proof {
                    reveal_strlit("md5");
                }
                assert(r@ =~= self.name_spec());
                r
            },
            Algorithm::Sha1 => {
                let r = "sha1";
                proof {
                    reveal_strlit("sha1");
                }
                assert(r@ =~= self.name_spec());
                r
            },
            Algorithm::Sha256 => {
                let r = "sha256";
                proof {
                    reveal_strlit("sha256");
                }
                assert(r@ =~= self.name_spec());
                r
            },
            Algorithm::Sha512 => {
                let r = "sha512";
                proof {
                    reveal_strlit("sha512");
                }
                assert(r@ =~= self.name_spec());
                r
            },
            Algorithm::Sha3_224 => {
                let r = "sha3-224";
                proof {
                    reveal_strlit("sha3-224");
                }
                assert(r@ =~= self.name_spec());
                r
            },
            Algorithm::Sha3_256 => {
                let r = "sha3-256";
                proof {
                    reveal_strlit("sha3-256");
                }
                assert(r@ =~= self.name_spec());
                r
            },
            Algorithm::Sha3_384 => {
                let r = "sha3-384";
                proof {
                    reveal_strlit("sha3-384");
                }
                assert(r@ =~= self.name_spec());
                r
            },
            Algorithm::Sha3_512 => {
                let r = "sha3-512";
                proof {
                    reveal_strlit("sha3-512");
                }
                assert(r@ =~= self.name_spec());
                r
            },
        }
    }

    proof fn lemma_listed(a: Algorithm)
        ensures
            exists|j: int| 0 <= j < 9 && Self::all_spec()[j] == a,
    {
        match a {
            Algorithm::Crc32 => assert(Self::all_spec()[0] == a),
            Algorithm::Md5 => assert(Self::all_spec()[1] == a),
            Algorithm::Sha1 => assert(Self::all_spec()[2] == a),
            Algorithm::Sha256 => assert(Self::all_spec()[3] == a),
            Algorithm::Sha512 => assert(Self::all_spec()[4] == a),
            Algorithm::Sha3_224 => assert(Self::all_spec()[5] == a),
            Algorithm::Sha3_256 => assert(Self::all_spec()[6] == a),
            Algorithm::Sha3_384 => assert(Self::all_spec()[7] == a),
            Algorithm::Sha3_512 => assert(Self::all_spec()[8] == a),
        }
    }

    /// No two algorithms answer to the same spelling.
    pub proof fn lemma_names_unambiguous(input: Seq<u8>, a: Algorithm, b: Algorithm)
        requires
            Self::named(input, a),
            Self::named(input, b),
        ensures
            a == b,
    {
        let sa = a.name_spec().map_values(|c: char| c as u8);
        let sb = b.name_spec().map_values(|c: char| c as u8);
        assert forall|i: int| 0 <= i < sa.len() implies sa[i] == sb[i] by {
            assert(ascii_lower(input[i]) == sa[i]);
        }
        if a != b {
            match a {
                Algorithm::Sha3_224 | Algorithm::Sha3_256 | Algorithm::Sha3_384
                | Algorithm::Sha3_512 => assert(sa.len() != sb.len() || sa[3] != sb[3] || sa[5]
                    != sb[5] || sa[6] != sb[6] || sa[7] != sb[7]),
                _ => assert(sa.len() != sb.len() || sa[0] != sb[0] || sa[2] != sb[2] || sa[3]
                    != sb[3] || sa[4] != sb[4]),
            }
        }
    }

    /// Each algorithm's own name, as listed to users, selects it.
    pub proof fn lemma_own_name_selects(a: Algorithm)
        ensures
            Self::named(a.name_spec().map_values(|c: char| c as u8), a),
    {
        let sa = a.name_spec().map_values(|c: char| c as u8);
        assert forall|i: int| 0 <= i < sa.len() implies #[trigger] ascii_lower(sa[i]) == sa[i] by {
            assert(a.name_spec()[i] == '-' || ('0' <= a.name_spec()[i] && a.name_spec()[i] <= '9')
                || ('a' <= a.name_spec()[i] && a.name_spec()[i] <= 'z'));
        }
    }

    /// Selects the algorithm that `name` spells, ignoring ASCII case.
    pub fn from_name(name: &str) -> (r: Option<Algorithm>)
        ensures
            forall|a: Algorithm| r == Some(a) <==> #[trigger] Self::named(name.spec_bytes(), a),
    {
        let input = name.as_bytes();
        let all = Self::all();
        let mut i: usize = 0;
        while i < all.len()
            invariant
                i <= all@.len(),
                all@ == Self::all_spec(),
                input@ == name.spec_bytes(),
                forall|j: int| 0 <= j < i ==> !Self::named(input@, #[trigger] all@[j]),
            decreases all@.len() - i,
        {
            let a = all[i];
            let canon = a.name();
            let canon_bytes = canon.as_bytes();
            proof {
                vstd::string::is_ascii_spec_bytes(canon);
                assert(canon_bytes@ =~= a.name_spec().map_values(|c: char| c as u8));
            }
            if spells(input, canon_bytes) {
                proof {
                    assert forall|b: Algorithm| Self::named(input@, b) implies b == a by {
                        Self::lemma_names_unambiguous(input@, a, b);
                    }
                }
                return Some(a);
            }
            i += 1;
        }
        proof {
            assert forall|a: Algorithm| !Self::named(input@, a) by {
                Self::lemma_listed(a);
            }
        }
        None
    }

    pub fn output_width(&self) -> (r: usize)
        ensures
            r == self.output_len(),
    {
        match self {
            Algorithm::Crc32 => 4,
            Algorithm::Md5 => 16,
            Algorithm::Sha1 => 20,
            Algorithm::Sha256 => 32,
            Algorithm::Sha512 => 64,
            Algorithm::Sha3_224 => 28,
            Algorithm::Sha3_256 => 32,
            Algorithm::Sha3_384 => 48,
            Algorithm::Sha3_512 => 64,
        }
    }
}

} // verus!
