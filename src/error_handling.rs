//! Reading through nested optional fields, and turning text into numbers
//! with the failure carried in `Option` and `Result`.
use vstd::prelude::*;
use std::num::ParseIntError;

verus! {

#[verifier::external_type_specification]
#[verifier::external_body]
pub struct ExParseIntError(ParseIntError);

/// The value of a run of decimal digits, most significant first.
pub open spec fn digits_value(s: Seq<char>) -> int
    decreases s.len(),
{
    if s.len() == 0 {
        0
    } else {
        digits_value(s.drop_last()) * 10 + (s.last() as u32 - '0' as u32)
    }
}

/// One or more ASCII digits and nothing else.
pub open spec fn is_digits(s: Seq<char>) -> bool {
    s.len() > 0 && forall|i: int| 0 <= i < s.len() ==> '0' <= #[trigger] s[i] && s[i] <= '9'
}

/// The `i32` that `s` writes in decimal: an optional `+` or `-`, then one or
/// more ASCII digits and nothing else, with a value in range. `None` for
/// every other text.
pub open spec fn parsed_i32(s: Seq<char>) -> Option<i32> {
    let signed = s.len() > 0 && (s[0] == '+' || s[0] == '-');
    let body = if signed {
        s.drop_first()
    } else {
        s
    };
    let v = if signed && s[0] == '-' {
        -digits_value(body)
    } else {
        digits_value(body)
    };
    if is_digits(body) && i32::MIN <= v <= i32::MAX {
        Some(v as i32)
    } else {
        None
    }
}

/// What a parse of `s` returns, in terms of `parsed_i32`.
pub open spec fn parse_result(s: Seq<char>, r: Result<i32, ParseIntError>) -> bool {
    match parsed_i32(s) {
        Some(v) => r == Ok::<i32, ParseIntError>(v),
        None => r is Err,
    }
}

/// What `str::parse::<i32>` returns for a text: the parse depends on the
/// characters alone.
pub uninterp spec fn parse_of(s: Seq<char>) -> Result<i32, ParseIntError>;

/// Relies on `str::parse::<i32>`, that is `FromStr` for `i32`: it takes an
/// optional sign and then decimal digits, with nothing before or after,
/// whose value fits in `i32`, and returns an error for any other text.
#[verifier::external_body]
fn parse_i32(s: &str) -> (r: Result<i32, ParseIntError>)
    ensures
        r == parse_of(s@),
        parse_result(s@, r),
{
    s.parse::<i32>()
}

/// Whether the product of the numbers that two texts write fits in `i32`,
/// when both texts are numbers.
pub open spec fn product_fits(a: Seq<char>, b: Seq<char>) -> bool {
    parsed_i32(a) is Some && parsed_i32(b) is Some ==> i32::MIN <= parsed_i32(a)->Some_0
        * parsed_i32(b)->Some_0 <= i32::MAX
}

/// Tells whether two texts meet the demand of the `multiply` functions: that
/// the product of the numbers they write fits in `i32`, when both are numbers.
pub fn product_fits_i32(first_num_str: &str, second_num_str: &str) -> (r: bool)
    ensures
        r == product_fits(first_num_str@, second_num_str@),
{
    match (parse_i32(first_num_str), parse_i32(second_num_str)) {
        (Ok(a), Ok(b)) => {
            proof {
                assert(-0x8000_0000_0000_0000 <= a * b <= 0x7fff_ffff_ffff_ffff) by (nonlinear_arith)
                    requires
                        i32::MIN <= a <= i32::MAX,
                        i32::MIN <= b <= i32::MAX,
                ;
            }
            let p: i64 = a as i64 * b as i64;
            i32::MIN as i64 <= p && p <= i32::MAX as i64
        },
        _ => true,
    }
}

/// The product of two parse results: the product of the numbers when both
/// are numbers, else the error of the first that failed.
pub open spec fn product_of(
    a: Result<i32, ParseIntError>,
    b: Result<i32, ParseIntError>,
) -> Result<i32, ParseIntError> {
    match (a, b) {
        (Ok(x), Ok(y)) => Ok((x * y) as i32),
        (Err(e), _) => Err(e),
        (Ok(_), Err(e)) => Err(e),
    }
}

/// The result of multiplying the numbers two texts write: their product when
/// both parse, else the error of the first parse that failed.
pub open spec fn product_result(a: Seq<char>, b: Seq<char>, r: Result<i32, ParseIntError>) -> bool {
    &&& r == product_of(parse_of(a), parse_of(b))
    &&& match (parsed_i32(a), parsed_i32(b)) {
        (Some(x), Some(y)) => r == Ok::<i32, ParseIntError>((x * y) as i32),
        _ => r is Err,
    }
}

/// Multiplies the numbers of two parse results, passing on the error of the
/// first that failed.
pub fn multiply_results(
    first: Result<i32, ParseIntError>,
    second: Result<i32, ParseIntError>,
) -> (r: Result<i32, ParseIntError>)
    requires
        first is Ok && second is Ok ==> i32::MIN <= first->Ok_0 * second->Ok_0 <= i32::MAX,
    ensures
        r == product_of(first, second),
{
    match first {
        Ok(first_num) => match second {
            Ok(second_num) => Ok(first_num * second_num),
            Err(e) => Err(e),
        },
        Err(e) => Err(e),
    }
}

/// Multiplies two numbers given as text, by nested matches.
pub fn multiply(first_num_str: &str, second_num_str: &str) -> (r: Result<i32, ParseIntError>)
    requires
        product_fits(first_num_str@, second_num_str@),
    ensures
        product_result(first_num_str@, second_num_str@, r),
{
    match parse_i32(first_num_str) {
        Ok(first_num) => {
            match parse_i32(second_num_str) {
                Ok(second_num) => Ok(first_num * second_num),
                Err(e) => Err(e),
            }
        },
        Err(e) => Err(e),
    }
}

/// Multiplies two numbers given as text, mapping the second parse.
pub fn multiply_combinator(first_num_str: &str, second_num_str: &str) -> (r: Result<i32, ParseIntError>)
    requires
        product_fits(first_num_str@, second_num_str@),
    ensures
        product_result(first_num_str@, second_num_str@, r),
{
    match parse_i32(first_num_str) {
        Ok(first_num) => {
            let times_first = |second_num: i32| -> (p: i32)
                requires
                    i32::MIN <= first_num * second_num <= i32::MAX,
                ensures
                    p == first_num * second_num,
                {
                    first_num * second_num
                };
            parse_i32(second_num_str).map(times_first)
        },
        Err(e) => Err(e),
    }
}

/// Multiplies two numbers given as text, returning early on a failed parse.
pub fn multiply_early_return(first_num_str: &str, second_num_str: &str) -> (r: Result<i32, ParseIntError>)
    requires
        product_fits(first_num_str@, second_num_str@),
    ensures
        product_result(first_num_str@, second_num_str@, r),
{
    let first_num = match parse_i32(first_num_str) {
        Ok(v) => v,
        Err(e) => return Err(e),
    };
    let second_num = match parse_i32(second_num_str) {
        Ok(v) => v,
        Err(e) => return Err(e),
    };
    Ok(first_num * second_num)
}

/// Multiplies two numbers given as text, passing a failed parse on with `?`.
pub fn multiply_question_mark(first_num_str: &str, second_num_str: &str) -> (r: Result<i32, ParseIntError>)
    requires
        product_fits(first_num_str@, second_num_str@),
    ensures
        product_result(first_num_str@, second_num_str@, r),
{
    let first_num = parse_i32(first_num_str)?;
    let second_num = parse_i32(second_num_str)?;
    Ok(first_num * second_num)
}

/// A parse result with its number doubled; an error stays as it is.
pub open spec fn doubled_of(p: Result<i32, ParseIntError>) -> Result<i32, ParseIntError> {
    match p {
        Ok(v) => Ok((2 * v) as i32),
        Err(e) => Err(e),
    }
}

/// Whether twice the number that `s` writes fits in `i32`, when it is one.
pub open spec fn double_fits(s: Seq<char>) -> bool {
    parsed_i32(s) is Some ==> i32::MIN <= 2 * parsed_i32(s)->Some_0 <= i32::MAX
}

/// Tells whether a text meets the demand of the `double_first` functions:
/// that twice the number it writes fits in `i32`, when it is a number.
pub fn double_fits_i32(s: &str) -> (r: bool)
    ensures
        r == double_fits(s@),
{
    match parse_i32(s) {
        Ok(n) => {
            let d: i64 = 2 * n as i64;
            i32::MIN as i64 <= d && d <= i32::MAX as i64
        },
        Err(_) => true,
    }
}

/// Doubles the first number of a list of texts, which must be there and be a
/// number.
pub fn double_first(vec: Vec<&str>) -> (r: i32)
    requires
        vec.len() > 0,
        parsed_i32(vec[0]@) is Some,
        double_fits(vec[0]@),
    ensures
        r == 2 * parsed_i32(vec[0]@)->Some_0,
{
    let first = vec[0];
    2 * parse_i32(first).unwrap()
}

/// Doubles the first number of a list of texts: nothing for an empty list,
/// else the parse of the first text, doubled.
pub fn double_first2(vec: Vec<&str>) -> (r: Option<Result<i32, ParseIntError>>)
    requires
        vec.len() > 0 ==> double_fits(vec[0]@),
    ensures
        vec.len() == 0 ==> r is None,
        vec.len() > 0 ==> r == Some(doubled_of(parse_of(vec[0]@))),
        vec.len() > 0 ==> match parsed_i32(vec[0]@) {
            Some(v) => r == Some(Ok::<i32, ParseIntError>((2 * v) as i32)),
            None => r is Some && r->Some_0 is Err,
        },
{
    if vec.len() == 0 {
        None
    } else {
        match parse_i32(vec[0]) {
            Ok(n) => Some(Ok(n * 2)),
            Err(e) => Some(Err(e)),
        }
    }
}

/// The same, with the error outside: `Ok(None)` for an empty list.
pub fn double_first3(vec: Vec<&str>) -> (r: Result<Option<i32>, ParseIntError>)
    requires
        vec.len() > 0 ==> double_fits(vec[0]@),
    ensures
        vec.len() == 0 ==> r == Ok::<Option<i32>, ParseIntError>(None),
        vec.len() > 0 ==> r == match parse_of(vec[0]@) {
            Ok(v) => Ok::<Option<i32>, ParseIntError>(Some((2 * v) as i32)),
            Err(e) => Err(e),
        },
        vec.len() > 0 ==> match parsed_i32(vec[0]@) {
            Some(v) => r == Ok::<Option<i32>, ParseIntError>(Some((2 * v) as i32)),
            None => r is Err,
        },
{
    let opt = double_first2(vec);
    match opt {
        None => Ok(None),
        Some(Ok(n)) => Ok(Some(n)),
        Some(Err(e)) => Err(e),
    }
}

/// Why the first number of a list of texts could not be doubled.
#[derive(Debug, PartialEq, Eq)]
pub struct DoubleError(pub &'static str);

/// The reason given for an empty list.
pub const EMPTY_VEC: &'static str = "vec is empty";

/// The reason given when the first text is not a number.
pub const NOT_A_NUMBER: &'static str = "parse first elem to i32 failed";

/// Doubles the first number of a list of texts, with a reason of its own
/// for each failure.
pub fn double_first_4(vec: Vec<&str>) -> (r: Result<i32, DoubleError>)
    requires
        vec.len() > 0 ==> double_fits(vec[0]@),
    ensures
        vec.len() == 0 ==> r == Err::<i32, DoubleError>(DoubleError(EMPTY_VEC)),
        vec.len() > 0 ==> match parsed_i32(vec[0]@) {
            Some(v) => r == Ok::<i32, DoubleError>((2 * v) as i32),
            None => r == Err::<i32, DoubleError>(DoubleError(NOT_A_NUMBER)),
        },
{
    if vec.len() == 0 {
        return Err(DoubleError(EMPTY_VEC));
    }
    match parse_i32(vec[0]) {
        Ok(n) => Ok(2 * n),
        Err(_) => Err(DoubleError(NOT_A_NUMBER)),
    }
}

pub struct PhoneNumber {
    pub area_code: Option<u8>,
    pub number: u32,
}

pub struct Job {
    pub phone_number: Option<PhoneNumber>,
}

pub struct Person {
    pub job: Option<Job>,
}

impl Person {
    /// The area code of the person's work phone, when the person has a job,
    /// the job a phone number and the number an area code.
    pub open spec fn area_code_of(&self) -> Option<u8> {
        match self.job {
            Some(job) => match job.phone_number {
                Some(phone) => phone.area_code,
                None => None,
            },
            None => None,
        }
    }

    pub fn work_phone_area_code(&self) -> (r: Option<u8>)
        ensures
            r == self.area_code_of(),
    {
        self.job.as_ref()?.phone_number.as_ref()?.area_code
    }
}

/// The numbers that the texts of `ss` write, in order, skipping every text
/// that is no number.
pub open spec fn valid_numbers(ss: Seq<&str>) -> Seq<i32>
    decreases ss.len(),
{
    if ss.len() == 0 {
        Seq::empty()
    } else {
        valid_numbers(ss.drop_last()) + match parsed_i32(ss.last()@) {
            Some(v) => seq![v],
            None => Seq::empty(),
        }
    }
}

/// How many texts of `ss` are no number.
pub open spec fn failures(ss: Seq<&str>) -> nat
    decreases ss.len(),
{
    if ss.len() == 0 {
        0
    } else {
        failures(ss.drop_last()) + if parsed_i32(ss.last()@) is Some {
            0nat
        } else {
            1nat
        }
    }
}

/// The errors of the texts of `ss` that are no number, in order.
pub open spec fn parse_errors(ss: Seq<&str>) -> Seq<ParseIntError>
    decreases ss.len(),
{
    if ss.len() == 0 {
        Seq::empty()
    } else {
        parse_errors(ss.drop_last()) + match parse_of(ss.last()@) {
            Ok(_) => Seq::empty(),
            Err(e) => seq![e],
        }
    }
}

/// All the numbers the texts of `ss` write, in order, or the error of the
/// first text that is no number.
pub open spec fn all_parsed(ss: Seq<&str>) -> Result<Seq<i32>, ParseIntError>
    decreases ss.len(),
{
    if ss.len() == 0 {
        Ok(Seq::empty())
    } else {
        match all_parsed(ss.drop_last()) {
            Err(e) => Err(e),
            Ok(t) => match parse_of(ss.last()@) {
                Ok(v) => Ok(t.push(v)),
                Err(e) => Err(e),
            },
        }
    }
}

/// Once a prefix of `ss` holds a text that is no number, the first such
/// error is the outcome for all of `ss`.
proof fn lemma_all_parsed_err_stays(ss: Seq<&str>, k: int)
    requires
        0 <= k <= ss.len(),
        all_parsed(ss.take(k)) is Err,
    ensures
        all_parsed(ss) == all_parsed(ss.take(k)),
    decreases ss.len() - k,
{
    if k == ss.len() {
        assert(ss.take(k) =~= ss);
    } else {
        assert(ss.take(k + 1).drop_last() =~= ss.take(k));
        lemma_all_parsed_err_stays(ss, k + 1);
    }
}

/// Whether every text of `ss` is a number.
pub open spec fn all_numbers(ss: Seq<&str>) -> bool {
    forall|i: int| 0 <= i < ss.len() ==> parsed_i32(#[trigger] ss[i]@) is Some
}

/// Parses each text, keeping every outcome in order.
pub fn parse_each(strings: &Vec<&str>) -> (r: Vec<Result<i32, ParseIntError>>)
    ensures
        r.len() == strings.len(),
        forall|i: int| 0 <= i < r.len() ==> #[trigger] r[i] == parse_of(strings[i]@),
        forall|i: int| 0 <= i < r.len() ==> parse_result(strings[i]@, #[trigger] r[i]),
{
    let mut out: Vec<Result<i32, ParseIntError>> = Vec::new();
    let mut i: usize = 0;
    while i < strings.len()
        invariant
            i <= strings.len(),
            out.len() == i,
            forall|j: int| 0 <= j < i ==> #[trigger] out[j] == parse_of(strings[j]@),
            forall|j: int| 0 <= j < i ==> parse_result(strings[j]@, #[trigger] out[j]),
        decreases strings.len() - i,
    {
        out.push(parse_i32(strings[i]));
        i += 1;
    }
    out
}

/// The numbers among the texts, in order; the texts that are no number are
/// left out.
pub fn parse_valid(strings: &Vec<&str>) -> (r: Vec<i32>)
    ensures
        r@ == valid_numbers(strings@),
{
    let mut out: Vec<i32> = Vec::new();
    let mut i: usize = 0;
    while i < strings.len()
        invariant
            i <= strings.len(),
            out@ == valid_numbers(strings@.take(i as int)),
        decreases strings.len() - i,
    {
        assert(strings@.take(i + 1).drop_last() =~= strings@.take(i as int));
        if let Ok(n) = parse_i32(strings[i]) {
            out.push(n);
        }
        i += 1;
    }
    assert(strings@.take(strings.len() as int) =~= strings@);
    out
}

/// All the numbers the texts write, in order, or the error of the first text
/// that is no number.
pub fn parse_all(strings: &Vec<&str>) -> (r: Result<Vec<i32>, ParseIntError>)
    ensures
        all_parsed(strings@) == match r {
            Ok(v) => Ok(v@),
            Err(e) => Err(e),
        },
        all_numbers(strings@) ==> r is Ok && r->Ok_0@ == valid_numbers(strings@),
        !all_numbers(strings@) ==> r is Err,
{
    let mut out: Vec<i32> = Vec::new();
    let mut i: usize = 0;
    while i < strings.len()
        invariant
            i <= strings.len(),
            all_numbers(strings@.take(i as int)),
            out@ == valid_numbers(strings@.take(i as int)),
            all_parsed(strings@.take(i as int)) == Ok::<Seq<i32>, ParseIntError>(out@),
        decreases strings.len() - i,
    {
        assert(strings@.take(i + 1).drop_last() =~= strings@.take(i as int));
        match parse_i32(strings[i]) {
            Ok(n) => out.push(n),
            Err(e) => {
                assert(!all_numbers(strings@) && strings@[i as int]@ == strings[i as int]@);
                proof {
                    lemma_all_parsed_err_stays(strings@, i + 1);
                }
                return Err(e);
            },
        }
        i += 1;
        assert(all_numbers(strings@.take(i as int))) by {
            assert forall|j: int| 0 <= j < i implies parsed_i32(
                #[trigger] strings@.take(i as int)[j]@,
            ) is Some by {
                if j < i - 1 {
                    assert(strings@.take(i as int)[j] == strings@.take(i - 1)[j]);
                }
            }
        }
    }
    assert(strings@.take(strings.len() as int) =~= strings@);
    Ok(out)
}

/// The numbers among the texts, in order, and the errors of the texts that
/// are no number, in order.
pub fn split_parsed(strings: &Vec<&str>) -> (r: (Vec<i32>, Vec<ParseIntError>))
    ensures
        r.0@ == valid_numbers(strings@),
        r.1.len() == failures(strings@),
        r.1@ == parse_errors(strings@),
{
    let mut numbers: Vec<i32> = Vec::new();
    let mut errors: Vec<ParseIntError> = Vec::new();
    let mut i: usize = 0;
    while i < strings.len()
        invariant
            i <= strings.len(),
            numbers@ == valid_numbers(strings@.take(i as int)),
            errors.len() == failures(strings@.take(i as int)),
            errors@ == parse_errors(strings@.take(i as int)),
        decreases strings.len() - i,
    {
        assert(strings@.take(i + 1).drop_last() =~= strings@.take(i as int));
        match parse_i32(strings[i]) {
            Ok(n) => numbers.push(n),
            Err(e) => errors.push(e),
        }
        i += 1;
    }
    assert(strings@.take(strings.len() as int) =~= strings@);
    (numbers, errors)
}

} // verus!
