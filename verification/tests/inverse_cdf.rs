use lois_proba::source::BitSource;
use statrs::function::erf::erf_inv;

// Reference vector for the inverse-CDF method: seed 555, five samples,
// sample i = sqrt(2) * erf_inv(2 * u_i - 1) where u_i is draw i of the
// bit stream divided by u64::MAX. The values were computed independently
// with high-precision arithmetic.
const REFERENCE: [f64; 5] = [
    -1.2514430887434895,
    -2.031586656889242,
    0.6754286526523293,
    -0.03862810255681947,
    0.03922457632150135,
];

#[test]
fn inverse_cdf_matches_reference_vector_for_seed_555() {
    let mut source = BitSource::from_seed(555);
    let draws = source.draw_many(5);
    for (draw, expected) in draws.iter().zip(REFERENCE) {
        let uniform = *draw as f64 / u64::MAX as f64;
        let sample = f64::sqrt(2.0) * erf_inv(2.0 * uniform - 1.0);
        assert!(
            (sample - expected).abs() < 1e-9,
            "sample {sample} differs from reference {expected}"
        );
    }
}
