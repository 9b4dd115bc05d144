use vstd::prelude::*;

verus! {

/// Lowercase one ASCII letter byte; every other byte is unchanged.
pub open spec fn lower_byte(b: u8) -> u8 {
    if 65 <= b && b <= 90 {
        (b + 32) as u8
    } else {
        b
    }
}

/// The normalized form of raw hostname bytes: strip at most one trailing
/// dot, then lowercase every ASCII letter.
pub open spec fn normalize_spec(s: Seq<u8>) -> Seq<u8> {
    let t = if s.len() > 0 && s.last() == 46u8 {
        s.drop_last()
    } else {
        s
    };
    t.map_values(|b: u8| lower_byte(b))
}

/// Raw hostname bytes are acceptable when they are nonempty, pure ASCII,
/// and still nonempty once a trailing dot is stripped.
pub open spec fn acceptable_spec(s: Seq<u8>) -> bool {
    &&& s.len() > 0
    &&& forall|i: int| 0 <= i < s.len() ==> s[i] < 128
    &&& normalize_spec(s).len() > 0
}

/// A hostname cache key, held in normalized form.
///
/// Whether case variants or the absolute (trailing-dot) form of a name share
/// a cache entry is a policy choice; the rule here is: ASCII letters are
/// lowercased and a single trailing dot is stripped, so `Example.TEST.` and
/// `example.test` denote the same key.
#[derive(Debug)]
pub struct Hostname {
    bytes: Vec<u8>,
}

impl View for Hostname {
    type V = Seq<u8>;

    closed spec fn view(&self) -> Seq<u8> {
        self.bytes@
    }
}

impl Hostname {
    /// A well-formed hostname is nonempty, pure ASCII, and fixed under
    /// lowercasing: no uppercase letter remains.
    pub open spec fn wf(&self) -> bool {
        &&& self@.len() > 0
        &&& forall|i: int| 0 <= i < self@.len() ==> self@[i] < 128
        &&& forall|i: int| 0 <= i < self@.len() ==> lower_byte(self@[i]) == self@[i]
    }

    /// Build the normalized key for raw hostname bytes, rejecting names
    /// that are empty, non-ASCII, or empty after normalization.
    pub fn from_bytes(raw: &Vec<u8>) -> (r: Option<Hostname>)
        ensures
            r is Some <==> acceptable_spec(raw@),
            r matches Some(h) ==> h@ == normalize_spec(raw@) && h.wf(),
    {
        let n = raw.len();
        if n == 0 {
            return None;
        }
        let mut i: usize = 0;
        while i < n
            invariant
                n == raw@.len(),
                0 <= i <= n,
                forall|j: int| 0 <= j < i ==> raw@[j] < 128,
            decreases n - i,
        {
            if raw[i] >= 128 {
                return None;
            }
            i += 1;
        }
        let end: usize = if raw[n - 1] == 46 {
            n - 1
        } else {
            n
        };
        if end == 0 {
            assert(normalize_spec(raw@).len() == 0);
            return None;
        }
        let ghost t = if raw@.last() == 46u8 {
            raw@.drop_last()
        } else {
            raw@
        };
        assert(t.len() == end);
        let mut out: Vec<u8> = Vec::new();
        let mut k: usize = 0;
        while k < end
            invariant
                0 <= k <= end,
                end <= raw@.len(),
                t.len() == end,
                forall|j: int| 0 <= j < end ==> t[j] == raw@[j],
                out@.len() == k,
                forall|j: int| 0 <= j < k ==> out@[j] == lower_byte(t[j]),
            decreases end - k,
        {
            let b = raw[k];
            let low: u8 = if 65 <= b && b <= 90 {
                b + 32
            } else {
                b
            };
            out.push(low);
            k += 1;
        }
        assert(out@ =~= t.map_values(|b: u8| lower_byte(b)));
        assert(out@ == normalize_spec(raw@));
        let h = Hostname { bytes: out };
        assert(h.wf()) by {
            assert(forall|j: int|
                0 <= j < h@.len() ==> h@[j] == lower_byte(t[j]) && t[j] < 128);
            assert(forall|j: int|
                0 <= j < h@.len() ==> lower_byte(h@[j]) == h@[j] && h@[j] < 128);
        }
        Some(h)
    }

    /// The normalized bytes of this hostname.
    pub fn as_bytes(&self) -> (r: &Vec<u8>)
        ensures
            r@ == self@,
    {
        &self.bytes
    }

    /// An independent copy denoting the same key.
    pub fn duplicate(&self) -> (r: Hostname)
        ensures
            r@ == self@,
    {
        let n = self.bytes.len();
        let mut out: Vec<u8> = Vec::new();
        let mut i: usize = 0;
        while i < n
            invariant
                n == self.bytes@.len(),
                0 <= i <= n,
                out@.len() == i,
                forall|j: int| 0 <= j < i ==> out@[j] == self.bytes@[j],
            decreases n - i,
        {
            out.push(self.bytes[i]);
            i += 1;
        }
        assert(out@ =~= self.bytes@);
        Hostname { bytes: out }
    }

    /// Whether two hostnames denote the same cache key.
    pub fn key_eq(&self, other: &Hostname) -> (r: bool)
        ensures
            r == (self@ == other@),
    {
        let n = self.bytes.len();
        if n != other.bytes.len() {
            assert(self@.len() != other@.len());
            return false;
        }
        let mut i: usize = 0;
        while i < n
            invariant
                n == self.bytes@.len(),
                n == other.bytes@.len(),
                0 <= i <= n,
                forall|j: int| 0 <= j < i ==> self.bytes@[j] == other.bytes@[j],
            decreases n - i,
        {
            if self.bytes[i] != other.bytes[i] {
                return false;
            }
            i += 1;
        }
        assert(self@ =~= other@);
        true
    }
}

} // verus!
