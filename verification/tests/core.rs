use fn_num_types::ops;
use fn_num_types::{FloatPossibilities, FnArgFloat, Possible};

fn get_test_values() -> [f64; 23] {
    [
        f64::NAN,
        f64::NEG_INFINITY,
        f64::MIN,
        f64::MIN / 2.0,
        -std::f64::consts::PI,
        -std::f64::consts::E,
        -2.0,
        -std::f64::consts::FRAC_PI_2,
        -1.0,
        -f64::MIN_POSITIVE,
        -1.0e-308, // Subnormal
        -0.0,
        0.0,
        1.0e-308, // Subnormal
        f64::MIN_POSITIVE,
        1.0,
        std::f64::consts::FRAC_PI_2,
        2.0,
        std::f64::consts::E,
        std::f64::consts::PI,
        f64::MAX / 2.0,
        f64::MAX,
        f64::INFINITY,
    ]
}

const YESNO: [Possible; 2] = [Possible::Yes, Possible::No];

fn get_possibilities() -> Vec<FloatPossibilities> {
    let mut possibles = vec![];

    for nan in YESNO {
        for zero in YESNO {
            for infinite in YESNO {
                for positive in YESNO {
                    for negative in YESNO {
                        possibles.push(FloatPossibilities {
                            nan,
                            zero,
                            infinite,
                            positive,
                            negative,
                        });
                    }
                }
            }
        }
    }

    possibles
}

#[test]
fn test_values() {
    let values = get_test_values();

    for w in values.windows(2) {
        let a = w[0];
        let b = w[1];

        if a.is_nan() || b.is_nan() {
            continue;
        }

        if a == b {
            assert_eq!(a, 0.0);
            assert_eq!(b, 0.0);
            assert!(a.is_sign_negative());
            assert!(b.is_sign_positive());
        } else {
            assert!(a < b);
        }
    }
}

#[test]
fn test_possibilities() {
    let possibles = get_possibilities();
    assert_eq!(possibles.len(), 32);
    for (i, p) in possibles.iter().enumerate() {
        for q in possibles.iter().skip(i + 1) {
            assert_ne!(p, q);
        }
    }
}

fn test_op(name: &str, op: fn(f64) -> f64, ty: fn(&FnArgFloat) -> FnArgFloat) {
    let possibles = get_possibilities();
    let values = get_test_values();

    for v in values.iter() {
        for p in possibles.iter() {
            if !p.accept(v.to_bits()) {
                continue;
            }

            let result = op(*v);
            let res_p = ty(&FnArgFloat::F64(*p));

            match res_p {
                FnArgFloat::F64(res_p) => {
                    assert!(
                        res_p.accept(result.to_bits()),
                        "{name}: {v:?} = {result:?}, {p:?} = {res_p:?}"
                    );
                }
                _ => panic!("Invalid result"),
            }
        }
    }
}

fn test_op2(
    name: &str,
    op: fn(f64, f64) -> f64,
    ty: fn(&FnArgFloat, &FnArgFloat) -> FnArgFloat,
) {
    let possibles = get_possibilities();
    let values = get_test_values();

    for v1 in values.iter() {
        for p1 in possibles.iter() {
            if !p1.accept(v1.to_bits()) {
                continue;
            }
            for v2 in values.iter() {
                for p2 in possibles.iter() {
                    if !p2.accept(v2.to_bits()) {
                        continue;
                    }

                    let result = op(*v1, *v2);
                    let res_p = ty(&FnArgFloat::F64(*p1), &FnArgFloat::F64(*p2));

                    match res_p {
                        FnArgFloat::F64(res_p) => {
                            assert!(
                                res_p.accept(result.to_bits()),
                                "{name}: {v1:?} {v2:?} = {result:?}, {p1:?} {p2:?} = {res_p:?}"
                            );
                        }
                        _ => panic!("Invalid result"),
                    }
                }
            }
        }
    }
}

#[test]
fn test_ops() {
    test_op("neg", |x| -x, ops::neg);
    test_op("abs", |x| x.abs(), ops::abs);
    test_op("ceil", |x| x.ceil(), ops::ceil);
    test_op("floor", |x| x.floor(), ops::floor);
    test_op("round", |x| x.round(), ops::round);
    test_op("trunc", |x| x.trunc(), ops::trunc);
    test_op("fract", |x| x.fract(), ops::fract);
    test_op("signum", |x| x.signum(), ops::signum);
    test_op("sqrt", |x| x.sqrt(), ops::sqrt);
    test_op("exp", |x| x.exp(), ops::exp);
    test_op("exp2", |x| x.exp2(), ops::exp2);
    test_op("ln", |x| x.ln(), ops::ln);
    test_op("log2", |x| x.log2(), ops::log2);
    test_op("log10", |x| x.log10(), ops::log10);
    test_op("to_degrees", |x| x.to_degrees(), ops::to_degrees);
    test_op("to_radians", |x| x.to_radians(), ops::to_radians);
    test_op("cbrt", |x| x.cbrt(), ops::cbrt);
    test_op("sin", |x| x.sin(), ops::sin);
    test_op("cos", |x| x.cos(), ops::cos);
    test_op("tan", |x| x.tan(), ops::tan);
    test_op("asin", |x| x.asin(), ops::asin);
    test_op("acos", |x| x.acos(), ops::acos);
    test_op("atan", |x| x.atan(), ops::atan);
    test_op("exp_m1", |x| x.exp_m1(), ops::exp_m1);
    test_op("ln_1p", |x| x.ln_1p(), ops::ln_1p);
    test_op("sinh", |x| x.sinh(), ops::sinh);
    test_op("cosh", |x| x.cosh(), ops::cosh);
    test_op("tanh", |x| x.tanh(), ops::tanh);
    test_op("asinh", |x| x.asinh(), ops::asinh);
    test_op("acosh", |x| x.acosh(), ops::acosh);
    test_op("atanh", |x| x.atanh(), ops::atanh);
    test_op("recip", |x| x.recip(), ops::recip);
    test_op("powi", |x| x.powi(2), |x| ops::powi(x));
}

#[test]
fn test_ops2() {
    test_op2("add", |x, y| x + y, |x, y| ops::add(x, y));
}
