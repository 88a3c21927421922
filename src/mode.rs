use vstd::prelude::*;

verus! {

/// The function a control applies to its value once the value was edited.
#[derive(Clone, Copy, Debug, PartialEq, Eq, Structural)]
pub enum CtrlMode {
    Normal,
    Sin,
    NegSin,
    Cos,
    NegCos,
    Tan,
    NegTan,
}

/// The short prefix shown in front of a control's value.
pub open spec fn prefix_of(m: CtrlMode) -> Seq<char> {
    match m {
        CtrlMode::Normal => seq![],
        CtrlMode::Sin => seq!['s'],
        CtrlMode::NegSin => seq!['-', 's'],
        CtrlMode::Cos => seq!['c'],
        CtrlMode::NegCos => seq!['-', 'c'],
        CtrlMode::Tan => seq!['t'],
        CtrlMode::NegTan => seq!['-', 't'],
    }
}

/// The name of a mode, as listed in a control's context menu.
pub open spec fn name_of(m: CtrlMode) -> Seq<char> {
    match m {
        CtrlMode::Normal => seq!['N', 'o', 'r', 'm', 'a', 'l'],
        CtrlMode::Sin => seq!['S', 'i', 'n'],
        CtrlMode::NegSin => seq!['N', 'e', 'g', 'S', 'i', 'n'],
        CtrlMode::Cos => seq!['C', 'o', 's'],
        CtrlMode::NegCos => seq!['N', 'e', 'g', 'C', 'o', 's'],
        CtrlMode::Tan => seq!['T', 'a', 'n'],
        CtrlMode::NegTan => seq!['N', 'e', 'g', 'T', 'a', 'n'],
    }
}

/// Every mode once, in declaration order.
pub open spec fn all_modes() -> Seq<CtrlMode> {
    seq![
        CtrlMode::Normal,
        CtrlMode::Sin,
        CtrlMode::NegSin,
        CtrlMode::Cos,
        CtrlMode::NegCos,
        CtrlMode::Tan,
        CtrlMode::NegTan,
    ]
}

impl Default for CtrlMode {
    fn default() -> (r: Self)
        ensures
            r == CtrlMode::Normal,
    {
        CtrlMode::Normal
    }
}

impl CtrlMode {
    /// The prefix drawn before the value: empty for `Normal`, else the
    /// initial of the function, with a minus sign for the negated ones.
    pub fn get_str(&self) -> (r: &'static str)
        ensures
            r@ == prefix_of(*self),
    {
        proof {
            reveal_strlit("");
            reveal_strlit("s");
            reveal_strlit("-s");
            reveal_strlit("c");
            reveal_strlit("-c");
            reveal_strlit("t");
            reveal_strlit("-t");
        }
        match self {
            CtrlMode::Normal => "",
            CtrlMode::Sin => "s",
            CtrlMode::NegSin => "-s",
            CtrlMode::Cos => "c",
            CtrlMode::NegCos => "-c",
            CtrlMode::Tan => "t",
            CtrlMode::NegTan => "-t",
        }
    }

    /// The mode's name, as the variant is written.
    pub fn name(&self) -> (r: &'static str)
        ensures
            r@ == name_of(*self),
    {
        proof {
            reveal_strlit("Normal");
            reveal_strlit("Sin");
            reveal_strlit("NegSin");
            reveal_strlit("Cos");
            reveal_strlit("NegCos");
            reveal_strlit("Tan");
            reveal_strlit("NegTan");
        }
        match self {
            CtrlMode::Normal => "Normal",
            CtrlMode::Sin => "Sin",
            CtrlMode::NegSin => "NegSin",
            CtrlMode::Cos => "Cos",
            CtrlMode::NegCos => "NegCos",
            CtrlMode::Tan => "Tan",
            CtrlMode::NegTan => "NegTan",
        }
    }

    /// Whether the mode leaves an edited value as it is.
    pub fn is_normal(&self) -> (r: bool)
        ensures
            r == (*self == CtrlMode::Normal),
    {
        match self {
            CtrlMode::Normal => true,
            _ => false,
        }
    }

    /// All modes, in the order a menu lists them.
    pub fn all() -> (r: Vec<CtrlMode>)
        ensures
            r@ == all_modes(),
    {
        let r = vec![
            CtrlMode::Normal,
            CtrlMode::Sin,
            CtrlMode::NegSin,
            CtrlMode::Cos,
            CtrlMode::NegCos,
            CtrlMode::Tan,
            CtrlMode::NegTan,
        ];
        assert(r@ =~= all_modes());
        r
    }
}

/// Each mode is listed exactly once, and the first listed is the default.
pub proof fn lemma_all_modes_complete(m: CtrlMode)
    ensures
        all_modes().contains(m),
        all_modes().no_duplicates(),
        all_modes()[0] == CtrlMode::Normal,
{
    let s = all_modes();
    let i: int = match m {
        CtrlMode::Normal => 0,
        CtrlMode::Sin => 1,
        CtrlMode::NegSin => 2,
        CtrlMode::Cos => 3,
        CtrlMode::NegCos => 4,
        CtrlMode::Tan => 5,
        CtrlMode::NegTan => 6,
    };
    assert(s[i] == m);
}

} // verus!
