use integrators::Real;
use integrators::traits::{ArityMismatch, IntegrandInput, IntegrandOutput};

fn r(x: f64) -> Real {
    Real::from_bits(x.to_bits())
}

#[test]
fn test_from_into_traits() {
    let a: Real = Real::from_args(&[r(2.0)]).unwrap();
    assert_eq!(a, r(2.0));
    let mut b: Vec<Real> = vec![r(0.0)];
    a.into_args(&mut b).unwrap();
    assert_eq!(b[0], a);

    let c: (Real, Real) = <(Real, Real)>::from_args(&[r(1.0), r(2.0)]).unwrap();
    assert_eq!(c, (r(1.0), r(2.0)));
    let mut d: Vec<Real> = vec![r(0.0), r(0.0)];
    c.into_args(&mut d).unwrap();
    assert_eq!((d[0], d[1]), c);
}

#[test]
fn test_vec_traits() {
    let v: Vec<Real> = vec![r(0.5); 10];
    let mut args: Vec<Real> = vec![r(0.0); 10];
    v.into_args(&mut args).unwrap();
    for (&a, &b) in v.iter().zip(args.iter()) {
        assert_eq!(a, b);
    }
}

#[test]
fn from_args_rejects_excess_scalar_buffer() {
    let a = Real::from_args(&[r(2.0), r(3.0)]);
    assert_eq!(a, Err(ArityMismatch { expected: 1, actual: 2 }));
}

#[test]
fn from_args_rejects_short_triple_buffer() {
    let buf = [r(0.1), r(0.2), r(0.3), r(0.4)];
    let c = <(Real, Real, Real)>::from_args(&buf);
    assert_eq!(c, Err(ArityMismatch { expected: 3, actual: 4 }));
}

#[test]
fn into_args_rejects_wrong_vec_length() {
    let v: Vec<Real> = vec![r(0.5); 11];
    let mut args: Vec<Real> = vec![r(0.0); 10];
    let e = v.into_args(&mut args);
    assert_eq!(e, Err(ArityMismatch { expected: 10, actual: 11 }));
    // the buffer is untouched on a mismatch
    assert!(args.iter().all(|&x| x == r(0.0)));
}

#[test]
fn into_args_rejects_wrong_tuple_buffer() {
    let p = (r(1.0), r(2.0));
    let mut small: Vec<Real> = vec![r(0.0)];
    assert_eq!(p.into_args(&mut small), Err(ArityMismatch { expected: 1, actual: 2 }));
    let mut big: Vec<Real> = vec![r(0.0); 3];
    assert_eq!(p.into_args(&mut big), Err(ArityMismatch { expected: 3, actual: 2 }));
}

#[test]
fn round_trip_every_arity() {
    let x1: Real = r(1.5);
    let mut b1 = vec![r(0.0); 1];
    x1.into_args(&mut b1).unwrap();
    assert_eq!(Real::from_args(&b1).unwrap(), x1);

    let x2 = (r(1.0), r(-2.0));
    let mut b2 = vec![r(0.0); 2];
    x2.into_args(&mut b2).unwrap();
    assert_eq!(<(Real, Real)>::from_args(&b2).unwrap(), x2);

    let x3 = (r(1.0), r(2.0), r(3.0));
    let mut b3 = vec![r(0.0); 3];
    x3.into_args(&mut b3).unwrap();
    assert_eq!(<(Real, Real, Real)>::from_args(&b3).unwrap(), x3);

    let x4 = (r(1.0), r(2.0), r(3.0), r(4.0));
    let mut b4 = vec![r(0.0); 4];
    x4.into_args(&mut b4).unwrap();
    assert_eq!(<(Real, Real, Real, Real)>::from_args(&b4).unwrap(), x4);

    let x5 = (r(1.0), r(2.0), r(3.0), r(4.0), r(5.0));
    let mut b5 = vec![r(0.0); 5];
    x5.into_args(&mut b5).unwrap();
    assert_eq!(<(Real, Real, Real, Real, Real)>::from_args(&b5).unwrap(), x5);

    let x6 = (r(1.0), r(2.0), r(3.0), r(4.0), r(5.0), r(6.0));
    let mut b6 = vec![r(0.0); 6];
    x6.into_args(&mut b6).unwrap();
    assert_eq!(<(Real, Real, Real, Real, Real, Real)>::from_args(&b6).unwrap(), x6);

    let x7 = (r(1.0), r(2.0), r(3.0), r(4.0), r(5.0), r(6.0), r(7.0));
    let mut b7 = vec![r(0.0); 7];
    x7.into_args(&mut b7).unwrap();
    assert_eq!(<(Real, Real, Real, Real, Real, Real, Real)>::from_args(&b7).unwrap(), x7);

    let x8 = (r(1.0), r(2.0), r(3.0), r(4.0), r(5.0), r(6.0), r(7.0), r(8.0));
    let mut b8 = vec![r(0.0); 8];
    x8.into_args(&mut b8).unwrap();
    assert_eq!(<(Real, Real, Real, Real, Real, Real, Real, Real)>::from_args(&b8).unwrap(), x8);
}

#[test]
fn arity_is_static_per_type() {
    assert_eq!(<Real as IntegrandInput>::input_size(), 1);
    assert_eq!(<(Real, Real) as IntegrandInput>::input_size(), 2);
    assert_eq!(<(Real, Real, Real) as IntegrandInput>::input_size(), 3);
    assert_eq!(<(Real, Real, Real, Real) as IntegrandInput>::input_size(), 4);
    assert_eq!(<(Real, Real, Real, Real, Real) as IntegrandInput>::input_size(), 5);
    assert_eq!(<(Real, Real, Real, Real, Real, Real) as IntegrandInput>::input_size(), 6);
    assert_eq!(<(Real, Real, Real, Real, Real, Real, Real) as IntegrandInput>::input_size(), 7);
    assert_eq!(
        <(Real, Real, Real, Real, Real, Real, Real, Real) as IntegrandInput>::input_size(),
        8
    );
    assert_eq!(r(1.0).output_size(), 1);
    assert_eq!((r(1.0), r(2.0), r(3.0)).output_size(), 3);
    let v: Vec<Real> = vec![r(0.0); 4];
    assert_eq!(v.output_size(), 4);
}
