use gatesim::signal::Signal;
use gatesim::signal::Signal::{False, HighImpedance, True, UncontrolledFalse, UncontrolledTrue, Undefined};

const ALL: [Signal; 6] = [
    Signal::False,
    Signal::True,
    Signal::UncontrolledFalse,
    Signal::UncontrolledTrue,
    Signal::HighImpedance,
    Signal::Undefined,
];

#[test]
fn test_bitand_operation() {
    // Iterate over all variants for the left operand
    for &left_operand in &[
        Signal::False,
        Signal::True,
        Signal::UncontrolledFalse,
        Signal::UncontrolledTrue,
        Signal::HighImpedance,
        Signal::Undefined,
    ] {
        // Iterate over all variants for the right operand
        for &right_operand in &[
            Signal::False,
            Signal::True,
            Signal::UncontrolledFalse,
            Signal::UncontrolledTrue,
            Signal::HighImpedance,
            Signal::Undefined,
        ] {
            // Perform the AND operation
            let result = left_operand.and(right_operand);

            // Print the output for each combination
            println!("{:?} & {:?} = {:?}", left_operand, right_operand, result);
        }
    }
}

#[test]
fn and_table_exhaustive() {
    let expected: [[Signal; 6]; 6] = [
        // False, True, UncontrolledFalse, UncontrolledTrue, HighImpedance, Undefined
        [False, False, UncontrolledFalse, False, False, False],
        [False, True, UncontrolledFalse, UncontrolledTrue, HighImpedance, Undefined],
        [
            UncontrolledFalse,
            UncontrolledFalse,
            UncontrolledFalse,
            UncontrolledFalse,
            UncontrolledFalse,
            UncontrolledFalse,
        ],
        [False, UncontrolledTrue, UncontrolledFalse, UncontrolledTrue, HighImpedance, Undefined],
        [False, HighImpedance, UncontrolledFalse, HighImpedance, HighImpedance, HighImpedance],
        [False, Undefined, UncontrolledFalse, Undefined, HighImpedance, Undefined],
    ];
    for (i, &a) in ALL.iter().enumerate() {
        for (j, &b) in ALL.iter().enumerate() {
            assert_eq!(a.and(b), expected[i][j], "and({:?}, {:?})", a, b);
        }
    }
}

#[test]
fn or_table_exhaustive() {
    let expected: [[Signal; 6]; 6] = [
        [False, True, UncontrolledFalse, UncontrolledTrue, HighImpedance, Undefined],
        [True, True, True, UncontrolledTrue, True, True],
        [UncontrolledFalse, True, UncontrolledFalse, UncontrolledTrue, HighImpedance, Undefined],
        [
            UncontrolledTrue,
            UncontrolledTrue,
            UncontrolledTrue,
            UncontrolledTrue,
            UncontrolledTrue,
            UncontrolledTrue,
        ],
        [HighImpedance, True, HighImpedance, UncontrolledTrue, HighImpedance, HighImpedance],
        [Undefined, True, Undefined, UncontrolledTrue, HighImpedance, Undefined],
    ];
    for (i, &a) in ALL.iter().enumerate() {
        for (j, &b) in ALL.iter().enumerate() {
            assert_eq!(a.or(b), expected[i][j], "or({:?}, {:?})", a, b);
        }
    }
}

#[test]
fn xor_table_exhaustive() {
    let expected: [[Signal; 6]; 6] = [
        [False, True, UncontrolledFalse, UncontrolledTrue, HighImpedance, Undefined],
        [True, False, UncontrolledTrue, UncontrolledFalse, HighImpedance, Undefined],
        [
            UncontrolledFalse,
            UncontrolledTrue,
            UncontrolledFalse,
            UncontrolledTrue,
            HighImpedance,
            Undefined,
        ],
        [
            UncontrolledTrue,
            UncontrolledFalse,
            UncontrolledTrue,
            UncontrolledFalse,
            HighImpedance,
            Undefined,
        ],
        [
            HighImpedance,
            HighImpedance,
            HighImpedance,
            HighImpedance,
            HighImpedance,
            HighImpedance,
        ],
        [Undefined, Undefined, Undefined, Undefined, HighImpedance, Undefined],
    ];
    for (i, &a) in ALL.iter().enumerate() {
        for (j, &b) in ALL.iter().enumerate() {
            assert_eq!(a.xor(b), expected[i][j], "xor({:?}, {:?})", a, b);
        }
    }
}

#[test]
fn not_is_an_involution() {
    for &x in ALL.iter() {
        assert_eq!(x.not().not(), x);
    }
    assert_eq!(Signal::False.not(), Signal::True);
    assert_eq!(Signal::True.not(), Signal::False);
    assert_eq!(Signal::UncontrolledFalse.not(), Signal::UncontrolledTrue);
    assert_eq!(Signal::UncontrolledTrue.not(), Signal::UncontrolledFalse);
    assert_eq!(Signal::HighImpedance.not(), Signal::HighImpedance);
    assert_eq!(Signal::Undefined.not(), Signal::Undefined);
}

#[test]
fn binary_operators_commute() {
    for &x in ALL.iter() {
        for &y in ALL.iter() {
            assert_eq!(x.and(y), y.and(x), "and({:?}, {:?})", x, y);
            assert_eq!(x.or(y), y.or(x), "or({:?}, {:?})", x, y);
            assert_eq!(x.xor(y), y.xor(x), "xor({:?}, {:?})", x, y);
        }
    }
}
