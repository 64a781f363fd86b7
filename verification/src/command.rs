//! The structured form of one program line.
use vstd::prelude::*;

verus! {

/// How many fixed-point steps make one machine unit.
pub const MICRO: i64 = 1_000_000;

/// The largest magnitude of a number of the program, in millionths: a
/// thousand million units. Numbers are held to it, so that the arithmetic on
/// them stays exact.
pub const COORDINATE_LIMIT: i64 = 1_000_000_000_000_000;

/// Whether a number is within [`COORDINATE_LIMIT`] of zero.
pub open spec fn in_reach(v: i64) -> bool {
    -COORDINATE_LIMIT <= v <= COORDINATE_LIMIT
}

/// Whether the values of all the parameter words are in reach.
pub open spec fn words_in_reach(parameters: Seq<(char, i64)>) -> bool {
    forall|k: int| 0 <= k < parameters.len() ==> in_reach((#[trigger] parameters[k]).1)
}

/// One parsed program line: a letter code, its number, the parameter words in
/// the order in which they were written, and the trailing comment if any.
///
/// Parameter values are fixed-point numbers in millionths.
#[derive(Debug, Clone)]
pub struct GCodeCommand {
    pub command_type: char,
    pub command_number: i32,
    pub parameters: Vec<(char, i64)>,
    pub comment: Option<String>,
}

/// The mathematical content of a [`GCodeCommand`].
pub struct CommandView {
    pub kind: char,
    pub number: int,
    pub parameters: Seq<(char, i64)>,
    pub comment: Option<Seq<char>>,
}

impl View for GCodeCommand {
    type V = CommandView;

    open spec fn view(&self) -> CommandView {
        CommandView {
            kind: self.command_type,
            number: self.command_number as int,
            parameters: self.parameters@,
            comment: match self.comment {
                Some(text) => Some(text@),
                None => None,
            },
        }
    }
}

/// The value of the first parameter named `letter`, if there is one.
pub open spec fn first_value(parameters: Seq<(char, i64)>, letter: char) -> Option<i64>
    decreases parameters.len(),
{
    if parameters.len() == 0 {
        None
    } else if parameters[0].0 == letter {
        Some(parameters[0].1)
    } else {
        first_value(parameters.drop_first(), letter)
    }
}

/// The value of the last parameter named `letter`, if there is one.
pub open spec fn last_value(parameters: Seq<(char, i64)>, letter: char) -> Option<i64>
    decreases parameters.len(),
{
    if parameters.len() == 0 {
        None
    } else if parameters.last().0 == letter {
        Some(parameters.last().1)
    } else {
        last_value(parameters.drop_last(), letter)
    }
}

/// Whether some parameter is named `letter`.
pub open spec fn has_letter(parameters: Seq<(char, i64)>, letter: char) -> bool {
    exists|i: int| 0 <= i < parameters.len() && (#[trigger] parameters[i]).0 == letter
}

/// A value that is looked up among words in reach is in reach.
pub proof fn lemma_looked_up_in_reach(parameters: Seq<(char, i64)>, letter: char)
    requires
        words_in_reach(parameters),
    ensures
        first_value(parameters, letter) matches Some(v) ==> in_reach(v),
        last_value(parameters, letter) matches Some(v) ==> in_reach(v),
    decreases parameters.len(),
{
    if parameters.len() > 0 {
        assert(in_reach(parameters[0].1));
        assert(in_reach(parameters.last().1));
        assert forall|k: int| 0 <= k < parameters.drop_first().len() implies in_reach(
            (#[trigger] parameters.drop_first()[k]).1,
        ) by {
            assert(parameters.drop_first()[k] == parameters[k + 1]);
        }
        assert forall|k: int| 0 <= k < parameters.drop_last().len() implies in_reach(
            (#[trigger] parameters.drop_last()[k]).1,
        ) by {
            assert(parameters.drop_last()[k] == parameters[k]);
        }
        lemma_looked_up_in_reach(parameters.drop_first(), letter);
        lemma_looked_up_in_reach(parameters.drop_last(), letter);
    }
}

impl GCodeCommand {
    /// Looks up the first parameter named `letter`.
    pub fn first_parameter(&self, letter: char) -> (value: Option<i64>)
        ensures
            value == first_value(self.parameters@, letter),
    {
        let mut i: usize = 0;
        proof {
            assert(self.parameters@.skip(0) =~= self.parameters@);
        }
        while i < self.parameters.len()
            invariant
                i <= self.parameters.len(),
                first_value(self.parameters@, letter) == first_value(
                    self.parameters@.skip(i as int),
                    letter,
                ),
            decreases self.parameters.len() - i,
        {
            if self.parameters[i].0 == letter {
                return Some(self.parameters[i].1);
            }
            proof {
                let rest = self.parameters@.skip(i as int);
                assert(rest.drop_first() =~= self.parameters@.skip(i + 1));
            }
            i += 1;
        }
        None
    }

    /// Looks up the last parameter named `letter`.
    pub fn last_parameter(&self, letter: char) -> (value: Option<i64>)
        ensures
            value == last_value(self.parameters@, letter),
    {
        let mut found: Option<i64> = None;
        let mut i: usize = 0;
        while i < self.parameters.len()
            invariant
                i <= self.parameters.len(),
                found == last_value(self.parameters@.take(i as int), letter),
            decreases self.parameters.len() - i,
        {
            proof {
                let next = self.parameters@.take(i + 1);
                assert(next.drop_last() =~= self.parameters@.take(i as int));
            }
            if self.parameters[i].0 == letter {
                found = Some(self.parameters[i].1);
            }
            i += 1;
        }
        proof {
            assert(self.parameters@.take(i as int) =~= self.parameters@);
        }
        found
    }
}

} // verus!
