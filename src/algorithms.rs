//! Routing between operators.
use vstd::prelude::*;

use crate::{OperatorId, OPERATOR_COUNT};
use crate::algorithms::Output::{Amplifier, Op1, Op2, Op3, Op4, Op5, Op6};

verus! {

/// Number of routings.
pub const ALGORITHM_COUNT: usize = 32;

/// The destination of an operator: another operator, or the amplifier.
#[derive(Clone, Copy, Debug, Eq, Hash, PartialEq, Structural)]
pub enum Output {
    Op1,
    Op2,
    Op3,
    Op4,
    Op5,
    Op6,
    /// Amplifier output
    Amplifier,
}

/// The output that feeds operator `operator_id`, if there is such an operator.
pub open spec fn output_of(operator_id: OperatorId) -> Option<Output> {
    if operator_id == 0 {
        Some(Op1)
    } else if operator_id == 1 {
        Some(Op2)
    } else if operator_id == 2 {
        Some(Op3)
    } else if operator_id == 3 {
        Some(Op4)
    } else if operator_id == 4 {
        Some(Op5)
    } else if operator_id == 5 {
        Some(Op6)
    } else {
        None
    }
}

impl Output {
    pub fn is_operator(&self) -> (r: bool)
        ensures
            r == (*self != Amplifier),
    {
        *self != Amplifier
    }

    /// The output into operator `operator_id`, 0 to 5.
    pub fn from(operator_id: OperatorId) -> (r: Option<Output>)
        ensures
            r == output_of(operator_id),
    {
        match operator_id {
            0 => Some(Op1),
            1 => Some(Op2),
            2 => Some(Op3),
            3 => Some(Op4),
            4 => Some(Op5),
            5 => Some(Op6),
            _ => None,
        }
    }

    /// The output's display name.
    pub fn as_str(&self) -> (r: &'static str)
        ensures
            *self == Op1 ==> r@ == "Operator 1"@,
            *self == Op2 ==> r@ == "Operator 2"@,
            *self == Op3 ==> r@ == "Operator 3"@,
            *self == Op4 ==> r@ == "Operator 4"@,
            *self == Op5 ==> r@ == "Operator 5"@,
            *self == Op6 ==> r@ == "Operator 6"@,
            *self == Amplifier ==> r@ == "Amplifier"@,
    {
        match self {
            Op1 => "Operator 1",
            Op2 => "Operator 2",
            Op3 => "Operator 3",
            Op4 => "Operator 4",
            Op5 => "Operator 5",
            Op6 => "Operator 6",
            Amplifier => "Amplifier",
        }
    }
}

/// Routing between the operators and the amplifier: for each operator, the
/// outputs it feeds.
pub struct Algorithm {
    routing_by_operator: [Vec<Output>; OPERATOR_COUNT],
}

impl View for Algorithm {
    type V = Seq<Seq<Output>>;

    closed spec fn view(&self) -> Seq<Seq<Output>> {
        seq![
            self.routing_by_operator[0]@,
            self.routing_by_operator[1]@,
            self.routing_by_operator[2]@,
            self.routing_by_operator[3]@,
            self.routing_by_operator[4]@,
            self.routing_by_operator[5]@,
        ]
    }
}

impl Algorithm {
    pub fn new(operators: [Vec<Output>; OPERATOR_COUNT]) -> (r: Self)
        ensures
            r@ == seq![
                operators[0]@,
                operators[1]@,
                operators[2]@,
                operators[3]@,
                operators[4]@,
                operators[5]@,
            ],
    {
        Self { routing_by_operator: operators }
    }

    /// Returns `true` if the operator exists and feeds the amplifier alone.
    pub fn is_carrier(&self, operator_id: OperatorId) -> (r: bool)
        ensures
            r == (operator_id < OPERATOR_COUNT && self@[operator_id as int] == seq![Amplifier]),
    {
        match self.routing(operator_id) {
            Some(routing) => {
                let r = routing.len() == 1 && routing[0] == Amplifier;
                proof {
                    if r {
                        assert(routing@ =~= seq![Amplifier]);
                    }
                }
                r
            },
            None => false,
        }
    }

    /// Returns `true` if the operator exists and feeds back into itself.
    pub fn is_feedback(&self, operator_id: OperatorId) -> (r: bool)
        ensures
            r == (output_of(operator_id) matches Some(o) && self@[operator_id as int].contains(o)),
    {
        let output = match Output::from(operator_id) {
            Some(o) => o,
            None => return false,
        };
        let routing = match self.routing(operator_id) {
            Some(v) => v,
            None => return false,
        };
        let mut i: usize = 0;
        while i < routing.len()
            invariant
                i <= routing@.len(),
                output_of(operator_id) == Some(output),
                routing@ == self@[operator_id as int],
                forall|j: int| 0 <= j < i ==> routing@[j] != output,
            decreases routing@.len() - i,
        {
            if routing[i] == output {
                assert(self@[operator_id as int][i as int] == output);
                return true;
            }
            i += 1;
        }
        false
    }

    /// The outputs that the operator feeds, if the operator exists.
    pub fn routing(&self, operator_id: OperatorId) -> (r: Option<&Vec<Output>>)
        ensures
            operator_id < OPERATOR_COUNT ==> (r matches Some(v) && v@ == self@[operator_id as int]),
            operator_id >= OPERATOR_COUNT ==> r is None,
    {
        if (operator_id as usize) < OPERATOR_COUNT {
            Some(&self.routing_by_operator[operator_id as usize])
        } else {
            None
        }
    }
}

/// The routing of algorithm `id` (0 to 31): for each operator, the outputs
/// it feeds.
pub open spec fn routing_table(id: int) -> Seq<Seq<Output>> {
    if id == 0 {
        seq![seq![Amplifier], seq![Op1], seq![Amplifier], seq![Op3], seq![Op4], seq![Op5, Op6]]
    } else if id == 1 {
        seq![seq![Amplifier], seq![Op1, Op2], seq![Amplifier], seq![Op3], seq![Op4], seq![Op5]]
    } else if id == 2 {
        seq![seq![Amplifier], seq![Op1], seq![Op2], seq![Amplifier], seq![Op4], seq![Op5, Op6]]
    } else if id == 3 {
        seq![seq![Amplifier], seq![Op1], seq![Op2], seq![Amplifier], seq![Op4], seq![Op5, Amplifier]]
    } else if id == 4 {
        seq![seq![Amplifier], seq![Op1], seq![Amplifier], seq![Op3], seq![Amplifier], seq![Op5, Op6]]
    } else if id == 5 {
        seq![seq![Amplifier], seq![Op1], seq![Amplifier], seq![Op3], seq![Amplifier], seq![Op5, Amplifier]]
    } else if id == 6 {
        seq![seq![Amplifier], seq![Op1], seq![Amplifier], seq![Op3], seq![Op3], seq![Op5, Op6]]
    } else if id == 7 {
        seq![seq![Amplifier], seq![Op1], seq![Amplifier], seq![Op3, Op4], seq![Op3], seq![Op5]]
    } else if id == 8 {
        seq![seq![Amplifier], seq![Op1, Op2], seq![Amplifier], seq![Op3], seq![Op3], seq![Op5]]
    } else if id == 9 {
        seq![seq![Amplifier], seq![Op1], seq![Op2, Op3], seq![Amplifier], seq![Op4], seq![Op4]]
    } else if id == 10 {
        seq![seq![Amplifier], seq![Op1], seq![Op2], seq![Amplifier], seq![Op4], seq![Op4, Op6]]
    } else if id == 11 {
        seq![seq![Amplifier], seq![Op1, Op2], seq![Amplifier], seq![Op3], seq![Op3], seq![Op3]]
    } else if id == 12 {
        seq![seq![Amplifier], seq![Op1], seq![Amplifier], seq![Op3], seq![Op3], seq![Op3, Op6]]
    } else if id == 13 {
        seq![seq![Amplifier], seq![Op1], seq![Amplifier], seq![Op3], seq![Op4], seq![Op4, Op6]]
    } else if id == 14 {
        seq![seq![Amplifier], seq![Op1, Op2], seq![Amplifier], seq![Op3], seq![Op4], seq![Op4]]
    } else if id == 15 {
        seq![seq![Amplifier], seq![Op1], seq![Op1], seq![Op3], seq![Op1], seq![Op5, Op6]]
    } else if id == 16 {
        seq![seq![Amplifier], seq![Op1, Op2], seq![Op1], seq![Op3], seq![Op1], seq![Op5]]
    } else if id == 17 {
        seq![seq![Amplifier], seq![Op1], seq![Op1, Op3], seq![Op1], seq![Op4], seq![Op5]]
    } else if id == 18 {
        seq![seq![Amplifier], seq![Op1], seq![Op2], seq![Amplifier], seq![Amplifier], seq![Op4, Op5, Op6]]
    } else if id == 19 {
        seq![seq![Amplifier], seq![Amplifier], seq![Op1, Op2, Op3], seq![Amplifier], seq![Op4], seq![Op4]]
    } else if id == 20 {
        seq![seq![Amplifier], seq![Amplifier], seq![Op1, Op2, Op3], seq![Amplifier], seq![Amplifier], seq![Op4, Op5]]
    } else if id == 21 {
        seq![seq![Amplifier], seq![Op1], seq![Amplifier], seq![Amplifier], seq![Amplifier], seq![Op3, Op4, Op5, Op6]]
    } else if id == 22 {
        seq![seq![Amplifier], seq![Amplifier], seq![Op2], seq![Amplifier], seq![Amplifier], seq![Op4, Op5, Op6]]
    } else if id == 23 {
        seq![seq![Amplifier], seq![Amplifier], seq![Amplifier], seq![Amplifier], seq![Amplifier], seq![Op3, Op4, Op5, Op6]]
    } else if id == 24 {
        seq![seq![Amplifier], seq![Amplifier], seq![Amplifier], seq![Amplifier], seq![Amplifier], seq![Op4, Op5, Op6]]
    } else if id == 25 {
        seq![seq![Amplifier], seq![Amplifier], seq![Op2], seq![Amplifier], seq![Op4], seq![Op4, Op6]]
    } else if id == 26 {
        seq![seq![Amplifier], seq![Amplifier], seq![Op2, Op3], seq![Amplifier], seq![Op4], seq![Op4]]
    } else if id == 27 {
        seq![seq![Amplifier], seq![Op1], seq![Amplifier], seq![Op3], seq![Op4, Op5], seq![Amplifier]]
    } else if id == 28 {
        seq![seq![Amplifier], seq![Amplifier], seq![Amplifier], seq![Op3], seq![Amplifier], seq![Op5, Op6]]
    } else if id == 29 {
        seq![seq![Amplifier], seq![Amplifier], seq![Amplifier], seq![Op3], seq![Op4, Op5], seq![Amplifier]]
    } else if id == 30 {
        seq![seq![Amplifier], seq![Amplifier], seq![Amplifier], seq![Amplifier], seq![Amplifier], seq![Op5, Op6]]
    } else {
        seq![seq![Amplifier], seq![Amplifier], seq![Amplifier], seq![Amplifier], seq![Amplifier], seq![Amplifier, Op6]]
    }
}

/// Every routing gives every operator at least one output and no output
/// twice.
pub proof fn lemma_routing_well_formed(id: int, operator: int)
    requires
        0 <= id < ALGORITHM_COUNT,
        0 <= operator < OPERATOR_COUNT,
    ensures
        routing_table(id)[operator].len() > 0,
        routing_table(id)[operator].no_duplicates(),
{
}

/// The 32 routings of the DX7.
pub struct Algorithms;

impl Algorithms {
    pub fn count() -> (r: usize)
        ensures
            r == ALGORITHM_COUNT,
    {
        ALGORITHM_COUNT
    }

    /// All routings, in algorithm order.
    pub fn all() -> (r: Vec<Algorithm>)
        ensures
            r@.len() == ALGORITHM_COUNT,
            forall|i: int| 0 <= i < ALGORITHM_COUNT ==> #[trigger] r@[i]@ == routing_table(i),
    {
        let mut all: Vec<Algorithm> = Vec::new();
        let mut id: usize = 0;
        while id < ALGORITHM_COUNT
            invariant
                id <= ALGORITHM_COUNT,
                all@.len() == id,
                forall|i: int| 0 <= i < id ==> #[trigger] all@[i]@ == routing_table(i),
            decreases ALGORITHM_COUNT - id,
        {
            all.push(Self::entry(id));
            id += 1;
        }
        all
    }

    /// The routing of algorithm `id`, if there is one.
    pub fn get(id: usize) -> (r: Option<Algorithm>)
        ensures
            id < ALGORITHM_COUNT ==> (r matches Some(a) && a@ == routing_table(id as int)),
            id >= ALGORITHM_COUNT ==> r is None,
    {
        if id < ALGORITHM_COUNT {
            Some(Self::entry(id))
        } else {
            None
        }
    }

    /// Builds the routing of algorithm `id`.
    #[verifier::rlimit(50)]
    fn entry(id: usize) -> (r: Algorithm)
        requires
            id < ALGORITHM_COUNT,
        ensures
            r@ == routing_table(id as int),
    {
        let r = match id {
            0 => Algorithm::new(
                [
                vec![Amplifier],
                vec![Op1],
                vec![Amplifier],
                vec![Op3],
                vec![Op4],
                vec![Op5, Op6],
                ],
            ),
            1 => Algorithm::new(
                [
                vec![Amplifier],
                vec![Op1, Op2],
                vec![Amplifier],
                vec![Op3],
                vec![Op4],
                vec![Op5],
                ],
            ),
            2 => Algorithm::new(
                [
                vec![Amplifier],
                vec![Op1],
                vec![Op2],
                vec![Amplifier],
                vec![Op4],
                vec![Op5, Op6],
                ],
            ),
            3 => Algorithm::new(
                [
                vec![Amplifier],
                vec![Op1],
                vec![Op2],
                vec![Amplifier],
                vec![Op4],
                vec![Op5, Amplifier],
                ],
            ),
            4 => Algorithm::new(
                [
                vec![Amplifier],
                vec![Op1],
                vec![Amplifier],
                vec![Op3],
                vec![Amplifier],
                vec![Op5, Op6],
                ],
            ),
            5 => Algorithm::new(
                [
                vec![Amplifier],
                vec![Op1],
                vec![Amplifier],
                vec![Op3],
                vec![Amplifier],
                vec![Op5, Amplifier],
                ],
            ),
            6 => Algorithm::new(
                [
                vec![Amplifier],
                vec![Op1],
                vec![Amplifier],
                vec![Op3],
                vec![Op3],
                vec![Op5, Op6],
                ],
            ),
            7 => Algorithm::new(
                [
                vec![Amplifier],
                vec![Op1],
                vec![Amplifier],
                vec![Op3, Op4],
                vec![Op3],
                vec![Op5],
                ],
            ),
            8 => Algorithm::new(
                [
                vec![Amplifier],
                vec![Op1, Op2],
                vec![Amplifier],
                vec![Op3],
                vec![Op3],
                vec![Op5],
                ],
            ),
            9 => Algorithm::new(
                [
                vec![Amplifier],
                vec![Op1],
                vec![Op2, Op3],
                vec![Amplifier],
                vec![Op4],
                vec![Op4],
                ],
            ),
            10 => Algorithm::new(
                [
                vec![Amplifier],
                vec![Op1],
                vec![Op2],
                vec![Amplifier],
                vec![Op4],
                vec![Op4, Op6],
                ],
            ),
            11 => Algorithm::new(
                [
                vec![Amplifier],
                vec![Op1, Op2],
                vec![Amplifier],
                vec![Op3],
                vec![Op3],
                vec![Op3],
                ],
            ),
            12 => Algorithm::new(
                [
                vec![Amplifier],
                vec![Op1],
                vec![Amplifier],
                vec![Op3],
                vec![Op3],
                vec![Op3, Op6],
                ],
            ),
            13 => Algorithm::new(
                [
                vec![Amplifier],
                vec![Op1],
                vec![Amplifier],
                vec![Op3],
                vec![Op4],
                vec![Op4, Op6],
                ],
            ),
            14 => Algorithm::new(
                [
                vec![Amplifier],
                vec![Op1, Op2],
                vec![Amplifier],
                vec![Op3],
                vec![Op4],
                vec![Op4],
                ],
            ),
            15 => Algorithm::new(
                [
                vec![Amplifier],
                vec![Op1],
                vec![Op1],
                vec![Op3],
                vec![Op1],
                vec![Op5, Op6],
                ],
            ),
            16 => Algorithm::new(
                [
                vec![Amplifier],
                vec![Op1, Op2],
                vec![Op1],
                vec![Op3],
                vec![Op1],
                vec![Op5],
                ],
            ),
            17 => Algorithm::new(
                [
                vec![Amplifier],
                vec![Op1],
                vec![Op1, Op3],
                vec![Op1],
                vec![Op4],
                vec![Op5],
                ],
            ),
            18 => Algorithm::new(
                [
                vec![Amplifier],
                vec![Op1],
                vec![Op2],
                vec![Amplifier],
                vec![Amplifier],
                vec![Op4, Op5, Op6],
                ],
            ),
            19 => Algorithm::new(
                [
                vec![Amplifier],
                vec![Amplifier],
                vec![Op1, Op2, Op3],
                vec![Amplifier],
                vec![Op4],
                vec![Op4],
                ],
            ),
            20 => Algorithm::new(
                [
                vec![Amplifier],
                vec![Amplifier],
                vec![Op1, Op2, Op3],
                vec![Amplifier],
                vec![Amplifier],
                vec![Op4, Op5],
                ],
            ),
            21 => Algorithm::new(
                [
                vec![Amplifier],
                vec![Op1],
                vec![Amplifier],
                vec![Amplifier],
                vec![Amplifier],
                vec![Op3, Op4, Op5, Op6],
                ],
            ),
            22 => Algorithm::new(
                [
                vec![Amplifier],
                vec![Amplifier],
                vec![Op2],
                vec![Amplifier],
                vec![Amplifier],
                vec![Op4, Op5, Op6],
                ],
            ),
            23 => Algorithm::new(
                [
                vec![Amplifier],
                vec![Amplifier],
                vec![Amplifier],
                vec![Amplifier],
                vec![Amplifier],
                vec![Op3, Op4, Op5, Op6],
                ],
            ),
            24 => Algorithm::new(
                [
                vec![Amplifier],
                vec![Amplifier],
                vec![Amplifier],
                vec![Amplifier],
                vec![Amplifier],
                vec![Op4, Op5, Op6],
                ],
            ),
            25 => Algorithm::new(
                [
                vec![Amplifier],
                vec![Amplifier],
                vec![Op2],
                vec![Amplifier],
                vec![Op4],
                vec![Op4, Op6],
                ],
            ),
            26 => Algorithm::new(
                [
                vec![Amplifier],
                vec![Amplifier],
                vec![Op2, Op3],
                vec![Amplifier],
                vec![Op4],
                vec![Op4],
                ],
            ),
            27 => Algorithm::new(
                [
                vec![Amplifier],
                vec![Op1],
                vec![Amplifier],
                vec![Op3],
                vec![Op4, Op5],
                vec![Amplifier],
                ],
            ),
            28 => Algorithm::new(
                [
                vec![Amplifier],
                vec![Amplifier],
                vec![Amplifier],
                vec![Op3],
                vec![Amplifier],
                vec![Op5, Op6],
                ],
            ),
            29 => Algorithm::new(
                [
                vec![Amplifier],
                vec![Amplifier],
                vec![Amplifier],
                vec![Op3],
                vec![Op4, Op5],
                vec![Amplifier],
                ],
            ),
            30 => Algorithm::new(
                [
                vec![Amplifier],
                vec![Amplifier],
                vec![Amplifier],
                vec![Amplifier],
                vec![Amplifier],
                vec![Op5, Op6],
                ],
            ),
            _ => Algorithm::new(
                [
                vec![Amplifier],
                vec![Amplifier],
                vec![Amplifier],
                vec![Amplifier],
                vec![Amplifier],
                vec![Amplifier, Op6],
                ],
            ),
        };
        assert(r@ =~~= routing_table(id as int));
        r
    }
}

} // verus!
