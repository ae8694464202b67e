use vstd::prelude::*;
use vstd::slice::{slice_subrange, slice_to_vec};
use crate::text::{
    fits_i64,
    int_text,
    lemma_int_text_round_trip,
    lemma_nat_digits,
    parse_int,
    push_bytes,
    push_int_text,
    text_int,
};

verus! {

/// The byte `_`; two of them separate the fields of a record.
pub const SEP_BYTE: u8 = 95;

/// Number of fields in a binding record.
pub const BINDING_FIELD_COUNT: usize = 7;

/// The field separator `__`.
pub open spec fn separator() -> Seq<u8> {
    seq![SEP_BYTE, SEP_BYTE]
}

/// A separator starts at index `i` of `s`.
pub open spec fn sep_at(s: Seq<u8>, i: int) -> bool {
    &&& 0 <= i
    &&& i + 1 < s.len()
    &&& s[i] == SEP_BYTE
    &&& s[i + 1] == SEP_BYTE
}

/// Index of the first separator at or after `i`, or -1 if there is none.
pub open spec fn next_sep(s: Seq<u8>, i: int) -> int
    decreases s.len() - i,
{
    if i < 0 || i + 1 >= s.len() {
        -1
    } else if sep_at(s, i) {
        i
    } else {
        next_sep(s, i + 1)
    }
}

/// Splits `s` from `start` into exactly `count` fields: each field but the
/// last ends at the first separator after its start; the last one runs to the
/// end and holds no separator.
pub open spec fn fields_from(s: Seq<u8>, start: int, count: nat) -> Option<Seq<Seq<u8>>>
    decreases count,
{
    if count <= 1 {
        if next_sep(s, start) == -1 {
            Some(seq![s.subrange(start, s.len() as int)])
        } else {
            None
        }
    } else {
        let k = next_sep(s, start);
        if k == -1 {
            None
        } else {
            match fields_from(s, k + 2, (count - 1) as nat) {
                Some(rest) => Some(seq![s.subrange(start, k)] + rest),
                None => None,
            }
        }
    }
}

/// The seven fields of a binding record, if it has exactly seven.
pub open spec fn binding_fields(s: Seq<u8>) -> Option<Seq<Seq<u8>>> {
    fields_from(s, 0, BINDING_FIELD_COUNT as nat)
}

/// Field `i` holds the decimal text of an `i64`.
pub open spec fn numeric_field(f: Seq<Seq<u8>>, i: int) -> bool {
    text_int(f[i]) is Some && fits_i64(text_int(f[i])->0)
}

/// A record that splits into seven fields whose last six are integers.
pub open spec fn well_formed_record(s: Seq<u8>) -> bool {
    &&& binding_fields(s) is Some
    &&& forall|i: int| 1 <= i < 7 ==> numeric_field(binding_fields(s)->0, i)
}

/// Per-chain configuration of the asset, minimum amount and fee tiers.
#[derive(Debug, Clone)]
pub struct Binding {
    pub execution_asset: Vec<u8>,
    pub min_amount: i64,
    pub min_fee: i64,
    pub threshold_fee: i64,
    pub before_percent_fee: i64,
    pub after_percent_fee: i64,
    pub enabled: bool,
}

/// The mathematical content of a binding.
pub struct BindingModel {
    pub execution_asset: Seq<u8>,
    pub min_amount: int,
    pub min_fee: int,
    pub threshold_fee: int,
    pub before_percent_fee: int,
    pub after_percent_fee: int,
    pub enabled: bool,
}

impl BindingModel {
    /// The asset is named and every numeric field is non-negative.
    pub open spec fn valid(self) -> bool {
        &&& self.execution_asset.len() > 0
        &&& self.min_amount >= 0
        &&& self.min_fee >= 0
        &&& self.threshold_fee >= 0
        &&& self.before_percent_fee >= 0
        &&& self.after_percent_fee >= 0
    }

    /// The stored text of this binding: the seven fields joined by `__`, the
    /// flag written as 1 or 0.
    pub open spec fn encoded(self) -> Seq<u8> {
        let flag: int = if self.enabled {
            1
        } else {
            0
        };
        self.execution_asset + separator() + (int_text(self.min_amount) + separator() + (int_text(
            self.min_fee,
        ) + separator() + (int_text(self.threshold_fee) + separator() + (int_text(
            self.before_percent_fee,
        ) + separator() + (int_text(self.after_percent_fee) + separator() + int_text(flag))))))
    }
}

/// The binding that a well-formed record holds; any non-zero flag means
/// enabled.
pub open spec fn record_binding(s: Seq<u8>) -> BindingModel {
    let f = binding_fields(s)->0;
    BindingModel {
        execution_asset: f[0],
        min_amount: text_int(f[1])->0,
        min_fee: text_int(f[2])->0,
        threshold_fee: text_int(f[3])->0,
        before_percent_fee: text_int(f[4])->0,
        after_percent_fee: text_int(f[5])->0,
        enabled: text_int(f[6])->0 != 0,
    }
}

impl View for Binding {
    type V = BindingModel;

    open spec fn view(&self) -> BindingModel {
        BindingModel {
            execution_asset: self.execution_asset@,
            min_amount: self.min_amount as int,
            min_fee: self.min_fee as int,
            threshold_fee: self.threshold_fee as int,
            before_percent_fee: self.before_percent_fee as int,
            after_percent_fee: self.after_percent_fee as int,
            enabled: self.enabled,
        }
    }
}

impl Binding {
    pub fn is_valid(&self) -> (r: bool)
        ensures
            r == self@.valid(),
    {
        self.execution_asset.len() > 0 && self.min_amount >= 0 && self.min_fee >= 0
            && self.threshold_fee >= 0 && self.before_percent_fee >= 0
            && self.after_percent_fee >= 0
    }

    /// Writes the record text of this binding.
    pub fn encode(&self) -> (r: Vec<u8>)
        ensures
            r@ == self@.encoded(),
    {
        let mut out: Vec<u8> = Vec::new();
        push_bytes(&mut out, self.execution_asset.as_slice());
        push_separator(&mut out);
        push_int_text(&mut out, self.min_amount);
        push_separator(&mut out);
        push_int_text(&mut out, self.min_fee);
        push_separator(&mut out);
        push_int_text(&mut out, self.threshold_fee);
        push_separator(&mut out);
        push_int_text(&mut out, self.before_percent_fee);
        push_separator(&mut out);
        push_int_text(&mut out, self.after_percent_fee);
        push_separator(&mut out);
        push_int_text(&mut out, if self.enabled { 1 } else { 0 });
        assert(out@ =~= self@.encoded());
        out
    }

    /// Reads a record: exactly seven `__`-separated fields, the last six
    /// decimal integers. `None` for anything else.
    pub fn decode(raw: &[u8]) -> (r: Option<Binding>)
        ensures
            r is Some <==> well_formed_record(raw@),
            r matches Some(b) ==> b@ == record_binding(raw@),
    {
        let fields = match split_fields(raw) {
            Some(f) => f,
            None => return None,
        };
        let ghost f = binding_fields(raw@)->0;
        assert(fields@.len() == 7);
        let min_amount = match parse_int(fields[1].as_slice()) {
            Some(v) => v,
            None => {
                assert(!numeric_field(f, 1));
                return None;
            },
        };
        let min_fee = match parse_int(fields[2].as_slice()) {
            Some(v) => v,
            None => {
                assert(!numeric_field(f, 2));
                return None;
            },
        };
        let threshold_fee = match parse_int(fields[3].as_slice()) {
            Some(v) => v,
            None => {
                assert(!numeric_field(f, 3));
                return None;
            },
        };
        let before_percent_fee = match parse_int(fields[4].as_slice()) {
            Some(v) => v,
            None => {
                assert(!numeric_field(f, 4));
                return None;
            },
        };
        let after_percent_fee = match parse_int(fields[5].as_slice()) {
            Some(v) => v,
            None => {
                assert(!numeric_field(f, 5));
                return None;
            },
        };
        let flag = match parse_int(fields[6].as_slice()) {
            Some(v) => v,
            None => {
                assert(!numeric_field(f, 6));
                return None;
            },
        };
        assert forall|i: int| 1 <= i < 7 implies numeric_field(f, i) by {
            assert(i == 1 || i == 2 || i == 3 || i == 4 || i == 5 || i == 6);
        }
        Some(
            Binding {
                execution_asset: fields[0].clone(),
                min_amount,
                min_fee,
                threshold_fee,
                before_percent_fee,
                after_percent_fee,
                enabled: flag != 0,
            },
        )
    }
}

fn push_separator(out: &mut Vec<u8>)
    ensures
        final(out)@ == old(out)@ + separator(),
{
    out.push(SEP_BYTE);
    out.push(SEP_BYTE);
    assert(final(out)@ =~= old(out)@ + separator());
}

/// Index of the first separator at or after `start`.
fn find_sep(s: &[u8], start: usize) -> (r: Option<usize>)
    requires
        start <= s.len(),
    ensures
        r is None <==> next_sep(s@, start as int) == -1,
        r matches Some(k) ==> k == next_sep(s@, start as int) && start <= k && k + 2 <= s.len(),
{
    let mut i: usize = start;
    while s.len() - i > 1
        invariant
            start <= i <= s.len(),
            next_sep(s@, start as int) == next_sep(s@, i as int),
        decreases s.len() - i,
    {
        if s[i] == SEP_BYTE && s[i + 1] == SEP_BYTE {
            return Some(i);
        }
        i = i + 1;
    }
    None
}

/// Splits a record into its seven fields.
fn split_fields(raw: &[u8]) -> (r: Option<Vec<Vec<u8>>>)
    ensures
        r is Some <==> binding_fields(raw@) is Some,
        r matches Some(v) ==> v@.len() == 7 && forall|i: int|
            0 <= i < 7 ==> #[trigger] v@[i]@ == (binding_fields(raw@)->0)[i],
{
    let mut fields: Vec<Vec<u8>> = Vec::new();
    let ghost mut parts: Seq<Seq<u8>> = Seq::empty();
    let mut cursor: usize = 0;
    let mut n: usize = 0;
    while n + 1 < BINDING_FIELD_COUNT
        invariant
            n + 1 <= BINDING_FIELD_COUNT,
            cursor <= raw.len(),
            fields@.len() == n,
            parts.len() == n,
            forall|i: int| 0 <= i < n ==> #[trigger] fields@[i]@ == parts[i],
            binding_fields(raw@) == (match fields_from(
                raw@,
                cursor as int,
                (BINDING_FIELD_COUNT - n) as nat,
            ) {
                Some(rest) => Some(parts + rest),
                None => None,
            }),
        decreases BINDING_FIELD_COUNT - n,
    {
        let k = match find_sep(raw, cursor) {
            Some(k) => k,
            None => return None,
        };
        let field = slice_to_vec(slice_subrange(raw, cursor, k));
        proof {
            let piece = raw@.subrange(cursor as int, k as int);
            let tail = fields_from(raw@, k + 2, (BINDING_FIELD_COUNT - n - 1) as nat);
            if tail is Some {
                assert(parts + (seq![piece] + tail->0) =~= parts.push(piece) + tail->0);
            }
            parts = parts.push(piece);
        }
        fields.push(field);
        cursor = k + 2;
        n = n + 1;
    }
    match find_sep(raw, cursor) {
        Some(_) => None,
        None => {
            let last = slice_to_vec(slice_subrange(raw, cursor, raw.len()));
            proof {
                parts = parts.push(raw@.subrange(cursor as int, raw@.len() as int));
            }
            fields.push(last);
            assert(binding_fields(raw@)->0 =~= parts);
            Some(fields)
        },
    }
}

/// A field that can stand in a record: it holds no separator and does not
/// end in `_`.
pub open spec fn plain_field(f: Seq<u8>) -> bool {
    forall|i: int|
        0 <= i < f.len() && #[trigger] f[i] == SEP_BYTE ==> i + 1 < f.len() && f[i + 1] != SEP_BYTE
}

/// Fields joined by the separator.
pub open spec fn join_fields(fs: Seq<Seq<u8>>) -> Seq<u8>
    decreases fs.len(),
{
    if fs.len() <= 1 {
        if fs.len() == 0 {
            Seq::empty()
        } else {
            fs[0]
        }
    } else {
        fs[0] + separator() + join_fields(fs.skip(1))
    }
}

proof fn lemma_no_sep_in_plain(s: Seq<u8>, p: int, f: Seq<u8>, k: int)
    requires
        0 <= p,
        p + f.len() <= s.len(),
        s.subrange(p, p + f.len()) == f,
        plain_field(f),
        p <= k < p + f.len(),
    ensures
        !sep_at(s, k),
{
    if s[k] == SEP_BYTE {
        assert(f[k - p] == s[k]);
        assert(k - p + 1 < f.len());
        assert(f[k - p + 1] == s[k + 1]);
    }
}

proof fn lemma_next_sep_skips(s: Seq<u8>, i: int, j: int)
    requires
        0 <= i <= j,
        forall|k: int| i <= k < j ==> !sep_at(s, k),
    ensures
        next_sep(s, i) == next_sep(s, j),
    decreases j - i,
{
    if i < j {
        lemma_next_sep_skips(s, i + 1, j);
    }
}

/// Splitting the join of plain fields gives back the fields.
proof fn lemma_fields_of_join(s: Seq<u8>, p: int, fs: Seq<Seq<u8>>)
    requires
        0 <= p <= s.len(),
        s.subrange(p, s.len() as int) == join_fields(fs),
        fs.len() >= 1,
        forall|i: int| 0 <= i < fs.len() ==> plain_field(#[trigger] fs[i]),
    ensures
        fields_from(s, p, fs.len()) == Some(fs),
    decreases fs.len(),
{
    let f = fs[0];
    let q = p + f.len();
    assert(plain_field(fs[0]));
    if fs.len() == 1 {
        assert(s.subrange(p, s.len() as int) == f);
        assert forall|k: int| p <= k < s.len() implies !sep_at(s, k) by {
            assert(s.subrange(p, p + f.len()) =~= f);
            lemma_no_sep_in_plain(s, p, f, k);
        }
        lemma_next_sep_skips(s, p, s.len() as int);
        assert(next_sep(s, p) == -1);
        assert(seq![s.subrange(p, s.len() as int)] =~= fs);
    } else {
        let rest = fs.skip(1);
        let tail = s.subrange(p, s.len() as int);
        assert(tail == f + separator() + join_fields(rest));
        assert(s.subrange(p, q) =~= f) by {
            assert forall|k: int| 0 <= k < f.len() implies s.subrange(p, q)[k] == f[k] by {
                assert(tail[k] == f[k]);
            }
        }
        assert(s[q] == SEP_BYTE && s[q + 1] == SEP_BYTE) by {
            assert(tail[f.len() as int] == SEP_BYTE);
            assert(tail[f.len() + 1int] == SEP_BYTE);
        }
        assert forall|k: int| p <= k < q implies !sep_at(s, k) by {
            lemma_no_sep_in_plain(s, p, f, k);
        }
        lemma_next_sep_skips(s, p, q);
        assert(sep_at(s, q));
        assert(next_sep(s, q) == q);
        assert(s.subrange(q + 2, s.len() as int) =~= join_fields(rest)) by {
            assert forall|k: int| 0 <= k < s.len() - (q + 2) implies s.subrange(
                q + 2,
                s.len() as int,
            )[k] == join_fields(rest)[k] by {
                assert(tail[f.len() + 2int + k] == s[q + 2 + k]);
            }
        }
        assert forall|i: int| 0 <= i < rest.len() implies plain_field(#[trigger] rest[i]) by {
            assert(rest[i] == fs[i + 1]);
        }
        lemma_fields_of_join(s, q + 2, rest);
        assert(seq![s.subrange(p, q)] + rest =~= fs);
    }
}

proof fn lemma_digits_plain(n: int)
    requires
        n >= 0,
    ensures
        plain_field(int_text(n)),
{
    lemma_nat_digits(n as nat);
    let t = int_text(n);
    assert forall|i: int| 0 <= i < t.len() && #[trigger] t[i] == SEP_BYTE implies i + 1 < t.len() && t[i
        + 1] != SEP_BYTE by {
        assert(crate::text::is_digit(t[i]));
    }
}

proof fn lemma_join_cons(fs: Seq<Seq<u8>>)
    requires
        fs.len() >= 2,
    ensures
        join_fields(fs) == fs[0] + separator() + join_fields(fs.skip(1)),
{
}

/// A valid binding whose asset name holds no `__` and does not end in `_`
/// reads back unchanged from the record text it is stored as.
pub proof fn lemma_binding_round_trip(b: &Binding)
    requires
        b@.valid(),
        plain_field(b.execution_asset@),
    ensures
        well_formed_record(b@.encoded()),
        record_binding(b@.encoded()) == b@,
{
    let m = b@;
    let flag: int = if m.enabled {
        1
    } else {
        0
    };
    let a = m.execution_asset;
    let t1 = int_text(m.min_amount);
    let t2 = int_text(m.min_fee);
    let t3 = int_text(m.threshold_fee);
    let t4 = int_text(m.before_percent_fee);
    let t5 = int_text(m.after_percent_fee);
    let t6 = int_text(flag);
    let fs = seq![a, t1, t2, t3, t4, t5, t6];
    lemma_digits_plain(m.min_amount);
    lemma_digits_plain(m.min_fee);
    lemma_digits_plain(m.threshold_fee);
    lemma_digits_plain(m.before_percent_fee);
    lemma_digits_plain(m.after_percent_fee);
    lemma_digits_plain(flag);
    assert forall|i: int| 0 <= i < fs.len() implies plain_field(#[trigger] fs[i]) by {}
    let sep = separator();
    let e = m.encoded();
    assert(join_fields(fs) == e) by {
        let f1 = fs.skip(1);
        let f2 = f1.skip(1);
        let f3 = f2.skip(1);
        let f4 = f3.skip(1);
        let f5 = f4.skip(1);
        let f6 = f5.skip(1);
        assert(f6 =~= seq![t6]);
        assert(join_fields(f6) == t6);
        lemma_join_cons(f5);
        lemma_join_cons(f4);
        lemma_join_cons(f3);
        lemma_join_cons(f2);
        lemma_join_cons(f1);
        lemma_join_cons(fs);
        assert(join_fields(fs) == a + sep + (t1 + sep + (t2 + sep + (t3 + sep + (t4 + sep + (t5
            + sep + t6))))));
    }
    assert(e.subrange(0, e.len() as int) =~= e);
    lemma_fields_of_join(e, 0, fs);
    lemma_int_text_round_trip(m.min_amount);
    lemma_int_text_round_trip(m.min_fee);
    lemma_int_text_round_trip(m.threshold_fee);
    lemma_int_text_round_trip(m.before_percent_fee);
    lemma_int_text_round_trip(m.after_percent_fee);
    lemma_int_text_round_trip(flag);
    let f = binding_fields(e)->0;
    assert(f == fs);
    assert forall|i: int| 1 <= i < 7 implies numeric_field(f, i) by {
        assert(i == 1 || i == 2 || i == 3 || i == 4 || i == 5 || i == 6);
    }
}

} // verus!
