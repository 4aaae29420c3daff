//! The PESEL number: its fields, the sex it encodes and the ways in which a
//! candidate string can fail to be one.

use crate::models::digits::{
    all_digits, is_digit, lemma_non_digits_empty, non_digit_chars, non_digits,
};
use vstd::prelude::*;
use vstd::std_specs::convert::FromSpecImpl;

verus! {

/// The sex encoded by a PESEL number.
#[derive(Debug, Clone, Copy, PartialEq, Eq, Structural)]
pub enum Sex {
    Male,
    Female,
}

/// The sex that the character `c` stands for: the even digits mean female,
/// every other character means male.
pub open spec fn sex_of(c: char) -> Sex {
    if c == '0' || c == '2' || c == '4' || c == '6' || c == '8' {
        Sex::Female
    } else {
        Sex::Male
    }
}

impl FromSpecImpl<char> for Sex {
    open spec fn obeys_from_spec() -> bool {
        true
    }

    open spec fn from_spec(value: char) -> Sex {
        sex_of(value)
    }
}

impl From<char> for Sex {
    /// Reads the sex off the character that encodes it.
    fn from(value: char) -> (sex: Sex)
        ensures
            sex == sex_of(value),
    {
        match value {
            '0' | '2' | '4' | '6' | '8' => Sex::Female,
            _ => Sex::Male,
        }
    }
}

/// The ways in which a string can fail to be a PESEL number.
#[derive(Debug, PartialEq)]
pub enum Error {
    /// The string does not have eleven characters; carries the number of
    /// characters it has.
    InvalidLength(usize),
    /// The string has eleven characters, but not all of them are decimal
    /// digits; carries every character that is not, in the order of the
    /// string.
    NonNumericCharacter(Vec<char>),
}

/// Whether `s` has the shape of a PESEL number: eleven decimal digits.
pub open spec fn is_pesel(s: Seq<char>) -> bool {
    s.len() == 11 && all_digits(s)
}

/// The fields of a PESEL number, each as the characters that it holds.
pub struct PeselView {
    pub date_of_birth: Seq<char>,
    pub serial_number: Seq<char>,
    pub sex: Sex,
    pub control_number: Seq<char>,
}

impl PeselView {
    /// The number that the fields spell out: date of birth, serial number
    /// and control number, one after the other.
    pub open spec fn number(self) -> Seq<char> {
        self.date_of_birth + self.serial_number + self.control_number
    }

    /// Whether the fields are those of a PESEL number: six, four and one
    /// decimal digits, and the sex that the last digit of the serial number
    /// stands for.
    pub open spec fn wf(self) -> bool {
        &&& self.date_of_birth.len() == 6
        &&& self.serial_number.len() == 4
        &&& self.control_number.len() == 1
        &&& all_digits(self.date_of_birth)
        &&& all_digits(self.serial_number)
        &&& all_digits(self.control_number)
        &&& self.sex == sex_of(self.serial_number[3])
    }
}

/// The fields that the number `s` is cut into. The tenth character is both
/// the last one of the serial number and the one that decides the sex.
pub open spec fn fields_of(s: Seq<char>) -> PeselView
    recommends
        is_pesel(s),
{
    PeselView {
        date_of_birth: s.subrange(0, 6),
        serial_number: s.subrange(6, 10),
        sex: sex_of(s[9]),
        control_number: s.subrange(10, 11),
    }
}

/// Cutting a PESEL number into its fields gives well-formed fields that
/// spell out the number again.
pub proof fn lemma_fields_of_number(s: Seq<char>)
    requires
        is_pesel(s),
    ensures
        fields_of(s).wf(),
        fields_of(s).number() == s,
{
    let fields = fields_of(s);
    assert(fields.serial_number[3] == s[9]);
    assert(fields.number() =~= s);
}

/// The sex of a PESEL number is decided by its tenth digit alone: female
/// where that digit is even, male where it is odd.
pub proof fn lemma_sex_of_number(s: Seq<char>)
    requires
        is_pesel(s),
    ensures
        fields_of(s).sex == sex_of(s[9]),
        fields_of(s).sex == Sex::Female <==> s[9] == '0' || s[9] == '2' || s[9] == '4' || s[9]
            == '6' || s[9] == '8',
        fields_of(s).sex == Sex::Male <==> s[9] == '1' || s[9] == '3' || s[9] == '5' || s[9]
            == '7' || s[9] == '9',
{
    assert(is_digit(s[9]));
}

/// Well-formed fields spell out a PESEL number, and cutting that number
/// gives the same fields back.
pub proof fn lemma_number_of_fields(fields: PeselView)
    requires
        fields.wf(),
    ensures
        is_pesel(fields.number()),
        fields_of(fields.number()) == fields,
{
    let s = fields.number();
    assert forall|i: int| 0 <= i < s.len() implies is_digit(#[trigger] s[i]) by {
        if i < 6 {
            assert(s[i] == fields.date_of_birth[i]);
        } else if i < 10 {
            assert(s[i] == fields.serial_number[i - 6]);
        } else {
            assert(s[i] == fields.control_number[i - 10]);
        }
    }
    assert(s.subrange(0, 6) =~= fields.date_of_birth);
    assert(s.subrange(6, 10) =~= fields.serial_number);
    assert(s.subrange(10, 11) =~= fields.control_number);
    assert(s[9] == fields.serial_number[3]);
}

/// A validated PESEL number, cut into its fields.
#[derive(Debug)]
pub struct Pesel {
    date_of_birth: String,
    serial_number: String,
    sex: Sex,
    control_number: String,
}

impl View for Pesel {
    type V = PeselView;

    closed spec fn view(&self) -> PeselView {
        PeselView {
            date_of_birth: self.date_of_birth@,
            serial_number: self.serial_number@,
            sex: self.sex,
            control_number: self.control_number@,
        }
    }
}

impl Pesel {
    #[verifier::type_invariant]
    spec fn well_formed(&self) -> bool {
        self@.wf()
    }

    /// Validates `string` and cuts it into the fields of a PESEL number.
    ///
    /// The length is checked first: a string that does not have eleven
    /// characters is rejected with its length, whatever it holds. A string of
    /// eleven characters is rejected with all of its characters that are not
    /// decimal digits. Every other string is a PESEL number and is accepted.
    pub fn new(string: &str) -> (result: Result<Pesel, Error>)
        ensures
            result is Ok <==> is_pesel(string@),
            result matches Ok(pesel) ==> pesel@ == fields_of(string@) && pesel@.wf()
                && pesel@.number() == string@,
            (result matches Err(Error::InvalidLength(_))) <==> string@.len() != 11,
            result matches Err(Error::InvalidLength(length)) ==> length == string@.len(),
            (result matches Err(Error::NonNumericCharacter(_))) <==> string@.len() == 11
                && !all_digits(string@),
            result matches Err(Error::NonNumericCharacter(chars)) ==> chars@ == non_digits(
                string@,
            ),
    {
        let length: usize = string.unicode_len();
        if length != 11 {
            return Err(Error::InvalidLength(length));
        }
        let wrong_chars = non_digit_chars(string);
        proof {
            lemma_non_digits_empty(string@);
        }
        if wrong_chars.len() != 0 {
            return Err(Error::NonNumericCharacter(wrong_chars));
        }
        proof {
            lemma_fields_of_number(string@);
        }
        Ok(
            Pesel {
                date_of_birth: string.substring_ascii(0, 6).to_owned(),
                serial_number: string.substring_ascii(6, 10).to_owned(),
                sex: Sex::from(string.get_char(9)),
                control_number: string.substring_ascii(10, 11).to_owned(),
            },
        )
    }

    /// The first six digits of the number.
    pub fn date_of_birth(&self) -> (field: &str)
        ensures
            field@ == self@.date_of_birth,
            field@.len() == 6,
            all_digits(field@),
    {
        proof {
            use_type_invariant(self);
        }
        self.date_of_birth.as_str()
    }

    /// The seventh to tenth digit of the number.
    pub fn serial_number(&self) -> (field: &str)
        ensures
            field@ == self@.serial_number,
            field@.len() == 4,
            all_digits(field@),
    {
        proof {
            use_type_invariant(self);
        }
        self.serial_number.as_str()
    }

    /// The sex that the last digit of the serial number stands for.
    pub fn sex(&self) -> (sex: Sex)
        ensures
            sex == self@.sex,
            sex == sex_of(self@.serial_number[3]),
    {
        proof {
            use_type_invariant(self);
        }
        self.sex
    }

    /// The last digit of the number.
    pub fn control_number(&self) -> (field: &str)
        ensures
            field@ == self@.control_number,
            field@.len() == 1,
            all_digits(field@),
    {
        proof {
            use_type_invariant(self);
        }
        self.control_number.as_str()
    }
}

} // verus!
