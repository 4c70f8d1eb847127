use vstd::prelude::*;
use crate::model::{NftInfo, NftInfoView};
use crate::text::{has_prefix, strip_prefix, strip_prefix_spec, str_equal};

verus! {

/// The pieces of `s` between the `'|'` separators, in order; never empty.
pub open spec fn fields(s: Seq<char>) -> Seq<Seq<char>>
    decreases s.len(),
{
    if s.len() == 0 {
        seq![Seq::<char>::empty()]
    } else {
        let f = fields(s.drop_last());
        if s.last() == '|' {
            f.push(Seq::<char>::empty())
        } else {
            f.update(f.len() - 1, f.last().push(s.last()))
        }
    }
}

pub proof fn lemma_fields_nonempty(s: Seq<char>)
    ensures
        fields(s).len() >= 1,
    decreases s.len(),
{
    if s.len() > 0 {
        lemma_fields_nonempty(s.drop_last());
    }
}

/// Splits `s` at every `'|'`.
pub fn split_fields(s: &str) -> (r: Vec<String>)
    ensures
        r@.map_values(|f: String| f@) == fields(s@),
{
    let n = s.unicode_len();
    let mut done: Vec<String> = Vec::new();
    let mut start: usize = 0;
    let mut i: usize = 0;
    proof {
        assert(s@.subrange(0, 0) =~= Seq::<char>::empty());
    }
    while i < n
        invariant
            n == s@.len(),
            start <= i <= n,
            fields(s@.subrange(0, i as int)) == done@.map_values(|f: String| f@).push(
                s@.subrange(start as int, i as int),
            ),
        decreases n - i,
    {
        let c = s.get_char(i);
        let ghost before = s@.subrange(0, i as int);
        let ghost after = s@.subrange(0, i + 1 as int);
        assert(after.drop_last() =~= before);
        assert(after.last() == c);
        proof {
            lemma_fields_nonempty(before);
        }
        if c == '|' {
            let piece = s.substring_char(start, i).to_owned();
            done.push(piece);
            start = i + 1;
            i = i + 1;
            assert(s@.subrange(start as int, i as int) =~= Seq::<char>::empty());
            assert(done@.map_values(|f: String| f@) =~= fields(before));
        } else {
            i = i + 1;
            assert(s@.subrange(start as int, i as int) =~= s@.subrange(
                start as int,
                i - 1 as int,
            ).push(c));
            assert(fields(after) =~= done@.map_values(|f: String| f@).push(
                s@.subrange(start as int, i as int),
            ));
        }
    }
    let last = s.substring_char(start, n).to_owned();
    done.push(last);
    assert(s@.subrange(0, n as int) =~= s@);
    assert(done@.map_values(|f: String| f@) =~= fields(s@));
    done
}

/// `s` without a leading `'+'`.
pub open spec fn unsigned_part(s: Seq<char>) -> Seq<char> {
    if s.len() > 0 && s[0] == '+' {
        s.drop_first()
    } else {
        s
    }
}

/// Every character of `d` is an ASCII digit.
pub open spec fn all_digits(d: Seq<char>) -> bool {
    forall|i: int| 0 <= i < d.len() ==> '0' <= #[trigger] d[i] && d[i] <= '9'
}

/// `s` written in decimal: an optional `'+'`, then one or more ASCII digits.
pub open spec fn is_decimal(s: Seq<char>) -> bool {
    unsigned_part(s).len() > 0 && all_digits(unsigned_part(s))
}

/// The number that the digits of `d` write.
pub open spec fn digits_value(d: Seq<char>) -> nat
    decreases d.len(),
{
    if d.len() == 0 {
        0
    } else {
        digits_value(d.drop_last()) * 10 + (d.last() as nat - '0' as nat) as nat
    }
}

/// The `u32` that `s` writes in decimal, if it writes one that fits.
pub open spec fn decimal_u32(s: Seq<char>) -> Option<u32> {
    if is_decimal(s) && digits_value(unsigned_part(s)) <= u32::MAX {
        Some(digits_value(unsigned_part(s)) as u32)
    } else {
        None
    }
}

/// A longer run of digits is worth at least as much as its prefix.
pub proof fn lemma_digits_value_prefix(d: Seq<char>, k: int)
    requires
        0 <= k <= d.len(),
    ensures
        digits_value(d.subrange(0, k)) <= digits_value(d),
    decreases d.len(),
{
    if k < d.len() {
        assert(d.drop_last().subrange(0, k) =~= d.subrange(0, k));
        lemma_digits_value_prefix(d.drop_last(), k);
    } else {
        assert(d.subrange(0, k) =~= d);
    }
}

/// Reads a `u32` written in decimal, as `<u32 as FromStr>::from_str` does.
pub fn parse_u32(s: &str) -> (r: Option<u32>)
    ensures
        r == decimal_u32(s@),
{
    let n = s.unicode_len();
    let start: usize = if n > 0 && s.get_char(0) == '+' {
        1
    } else {
        0
    };
    let ghost d = unsigned_part(s@);
    assert(d =~= s@.subrange(start as int, n as int));
    if start == n {
        return None;
    }
    let mut v: u64 = 0;
    let mut i: usize = start;
    assert(d.subrange(0, 0) =~= Seq::<char>::empty());
    while i < n
        invariant
            n == s@.len(),
            start <= i <= n,
            d == s@.subrange(start as int, n as int),
            d == unsigned_part(s@),
            forall|j: int| 0 <= j < i - start ==> '0' <= #[trigger] d[j] && d[j] <= '9',
            v == digits_value(d.subrange(0, i - start)),
            v <= u32::MAX,
        decreases n - i,
    {
        let c = s.get_char(i);
        assert(d[i - start] == c);
        if !('0' <= c && c <= '9') {
            assert(!all_digits(d));
            return None;
        }
        let x: u64 = (c as u32 - '0' as u32) as u64;
        let next: u64 = v * 10 + x;
        let ghost pre = d.subrange(0, i + 1 - start);
        assert(pre.drop_last() =~= d.subrange(0, i - start));
        assert(pre.last() == c);
        assert(next == digits_value(pre));
        if next > u32::MAX as u64 {
            proof {
                lemma_digits_value_prefix(d, i + 1 - start);
            }
            assert(digits_value(d) > u32::MAX);
            return None;
        }
        v = next;
        i = i + 1;
    }
    assert(d.subrange(0, n - start) =~= d);
    Some(v as u32)
}

/// Why a create command was refused.
#[derive(Debug, Clone, Copy, PartialEq, Eq, Structural)]
pub enum CreateError {
    /// Fewer than four `'|'`-separated fields.
    TooFewFields,
    /// The second field is not a decimal `u32`.
    BadItemId,
}

/// What the fields after `CREATE NFT ` describe.
pub open spec fn parse_create_spec(rest: Seq<char>) -> Result<NftInfoView, CreateError> {
    let f = fields(rest);
    if f.len() < 4 {
        Err(CreateError::TooFewFields)
    } else {
        match decimal_u32(f[1]) {
            None => Err(CreateError::BadItemId),
            Some(id) => Ok(
                NftInfoView { collection_name: f[0], item_id: id, description: f[2], owner: f[3] },
            ),
        }
    }
}

/// Reads `collection|id|description|owner`; fields after the fourth are ignored.
pub fn parse_create(rest: &str) -> (r: Result<NftInfo, CreateError>)
    ensures
        match (r, parse_create_spec(rest@)) {
            (Ok(item), Ok(v)) => item@ == v,
            (Err(e), Err(f)) => e == f,
            _ => false,
        },
{
    let f = split_fields(rest);
    let ghost fv = f@.map_values(|x: String| x@);
    assert(fv.len() == f@.len());
    if f.len() < 4 {
        return Err(CreateError::TooFewFields);
    }
    assert(fv[0] == f@[0]@ && fv[1] == f@[1]@ && fv[2] == f@[2]@ && fv[3] == f@[3]@);
    match parse_u32(f[1].as_str()) {
        None => Err(CreateError::BadItemId),
        Some(id) => Ok(NftInfo::new(f[0].clone(), id, f[2].clone(), f[3].clone())),
    }
}

/// An operator command.
#[derive(Debug)]
pub enum Command {
    ListPeers,
    GetAll,
    GetCollection(String),
    GetLocal,
    Create(NftInfo),
    CreateFailed(CreateError),
    Unknown,
}

pub enum CommandView {
    ListPeers,
    GetAll,
    GetCollection(Seq<char>),
    GetLocal,
    Create(NftInfoView),
    CreateFailed(CreateError),
    Unknown,
}

impl View for Command {
    type V = CommandView;

    open spec fn view(&self) -> CommandView {
        match self {
            Command::ListPeers => CommandView::ListPeers,
            Command::GetAll => CommandView::GetAll,
            Command::GetCollection(name) => CommandView::GetCollection(name@),
            Command::GetLocal => CommandView::GetLocal,
            Command::Create(item) => CommandView::Create(item@),
            Command::CreateFailed(e) => CommandView::CreateFailed(*e),
            Command::Unknown => CommandView::Unknown,
        }
    }
}

/// The command that a line of operator input stands for.
pub open spec fn command_spec(line: Seq<char>) -> CommandView {
    if line == "LIST PEERS"@ {
        CommandView::ListPeers
    } else if has_prefix(line, "GET NFT"@) {
        match strip_prefix_spec(line, "GET NFT "@) {
            Some(rest) => if rest == "ALL"@ {
                CommandView::GetAll
            } else {
                CommandView::GetCollection(rest)
            },
            None => CommandView::GetLocal,
        }
    } else if has_prefix(line, "CREATE NFT"@) {
        match strip_prefix_spec(line, "CREATE NFT "@) {
            Some(rest) => match parse_create_spec(rest) {
                Ok(item) => CommandView::Create(item),
                Err(e) => CommandView::CreateFailed(e),
            },
            None => CommandView::CreateFailed(CreateError::TooFewFields),
        }
    } else {
        CommandView::Unknown
    }
}

/// Reads one line of operator input.
pub fn parse_command(line: &str) -> (r: Command)
    ensures
        r@ == command_spec(line@),
{
    if str_equal(line, "LIST PEERS") {
        return Command::ListPeers;
    }
    if strip_prefix(line, "GET NFT").is_some() {
        return match strip_prefix(line, "GET NFT ") {
            Some(rest) => if str_equal(rest, "ALL") {
                Command::GetAll
            } else {
                Command::GetCollection(rest.to_owned())
            },
            None => Command::GetLocal,
        };
    }
    if strip_prefix(line, "CREATE NFT").is_some() {
        return match strip_prefix(line, "CREATE NFT ") {
            Some(rest) => match parse_create(rest) {
                Ok(item) => Command::Create(item),
                Err(e) => Command::CreateFailed(e),
            },
            None => Command::CreateFailed(CreateError::TooFewFields),
        };
    }
    Command::Unknown
}

} // verus!
