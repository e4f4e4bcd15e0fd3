use fn_num_types::Possible;

const LEVELS: [Possible; 4] = [Possible::No, Possible::ShouldNot, Possible::Should, Possible::Yes];

#[test]
fn any_returns_the_strongest() {
    assert_eq!(Possible::Yes, Possible::any(Possible::Yes, Possible::Should));
    assert_eq!(Possible::Yes, Possible::any(Possible::Should, Possible::Yes));
    assert_eq!(Possible::Should, Possible::any(Possible::Should, Possible::ShouldNot));
    assert_eq!(Possible::Should, Possible::any(Possible::ShouldNot, Possible::Should));
    assert_eq!(Possible::ShouldNot, Possible::any(Possible::ShouldNot, Possible::No));
    assert_eq!(Possible::ShouldNot, Possible::any(Possible::No, Possible::ShouldNot));
    assert_eq!(Possible::No, Possible::any(Possible::No, Possible::No));
}

#[test]
fn bitor_returns_the_strongest() {
    assert_eq!(Possible::Yes, Possible::Yes | Possible::Should);
    assert_eq!(Possible::Yes, Possible::Should | Possible::Yes);
    assert_eq!(Possible::Should, Possible::Should | Possible::ShouldNot);
    assert_eq!(Possible::Should, Possible::ShouldNot | Possible::Should);
    assert_eq!(Possible::ShouldNot, Possible::ShouldNot | Possible::No);
    assert_eq!(Possible::ShouldNot, Possible::No | Possible::ShouldNot);
    assert_eq!(Possible::No, Possible::No | Possible::No);
}

#[test]
fn bitand_returns_the_weakest() {
    assert_eq!(Possible::Should, Possible::Yes & Possible::Should);
    assert_eq!(Possible::Should, Possible::Should & Possible::Yes);
    assert_eq!(Possible::ShouldNot, Possible::Should & Possible::ShouldNot);
    assert_eq!(Possible::No, Possible::ShouldNot & Possible::No);
    assert_eq!(Possible::No, Possible::No & Possible::Yes);
    assert_eq!(Possible::Yes, Possible::Yes & Possible::Yes);
}

#[test]
fn levels_are_totally_ordered() {
    for (i, a) in LEVELS.iter().enumerate() {
        for (j, b) in LEVELS.iter().enumerate() {
            assert_eq!(a < b, i < j);
            assert_eq!(a <= b, i <= j);
            assert_eq!(a == b, i == j);
            assert_eq!(a.partial_cmp(b), i.partial_cmp(&j));
            assert_eq!(a.cmp(b), i.cmp(&j));
        }
    }
}

#[test]
fn any_and_meet_are_max_and_min() {
    for a in LEVELS {
        for b in LEVELS {
            assert_eq!(Possible::any(a, b), std::cmp::max(a, b));
            assert_eq!(a | b, std::cmp::max(a, b));
            assert_eq!(a & b, std::cmp::min(a, b));
        }
    }
}

#[test]
fn lattice_laws_hold_on_every_level() {
    for a in LEVELS {
        assert_eq!(a | a, a);
        assert_eq!(a & a, a);
        assert_eq!(Possible::any(Possible::Yes, a), Possible::Yes);
        assert_eq!(Possible::any(a, Possible::Yes), Possible::Yes);
        assert_eq!(Possible::any(Possible::No, a), a);
        for b in LEVELS {
            assert_eq!(a | b, b | a);
            assert_eq!(a & b, b & a);
            assert_eq!(a | (a & b), a);
            assert_eq!(a & (a | b), a);
            for c in LEVELS {
                assert_eq!((a | b) | c, a | (b | c));
                assert_eq!((a & b) & c, a & (b & c));
            }
        }
    }
}

#[test]
fn default_level_is_yes() {
    assert_eq!(Possible::default(), Possible::Yes);
}
