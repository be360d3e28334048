//! Tests for the step response, with the smoother on floats beside the one
//! on integers.

use dyn_smooth::{tan_lut_lookup, DynamicSmootherEcoI32, I32_FRAC_BITS};

/// The smoother on single-precision floats, to compare with.
struct SmootherF32 {
    low1: f32,
    low2: f32,
    g0: f32,
    sense: f32,
}

impl SmootherF32 {
    fn new(basefreq: f32, samplerate: f32, sensitivity: f32) -> Self {
        let wc = basefreq / samplerate;
        let lut_index = (wc * 2.0 * 32.0 * 65536.0) as usize;
        let gc = tan_lut_lookup(lut_index) as f32 / 65536.0;
        let g0 = 2.0 * gc / (1.0 + gc);
        Self { low1: 0.0, low2: 0.0, g0, sense: sensitivity * 4.0 }
    }

    fn tick(&mut self, input: f32) -> f32 {
        let low1z = self.low1;
        let low2z = self.low2;
        let bandz = (low1z - low2z).abs();
        let g = f32::min(self.g0 + self.sense * bandz, 1.0);
        self.low1 = low1z + g * (input - low1z);
        self.low2 = low2z + g * (self.low1 - low2z);
        self.low2
    }
}

fn print_table(rows: &[(f32, f32, i32)]) {
    println!();
    println!("|  #  | input |   f32 out  |   i32 out  |");
    println!("|-----|-------|------------|------------|");

    for (n, row) in rows.iter().enumerate() {
        println!(
            "| {:>3} | {:>5} | {:>10.3} | {:>10.3} |",
            n, row.0, row.1, row.2,
        );
    }

    println!();
}

#[test]
/// Check step response with the parameters of the paper on dynamic smoothing.
fn step_response_default() {
    const NUM_SAMPLES: usize = 20;
    const INPUT_VALUE: f32 = 1000.0;

    const BASEFREQ: f32 = 2.0;
    const SAMPLERATE: f32 = 1000.0;
    const SENSITIVITY: f32 = 0.5;

    let mut smoother_f32 = SmootherF32::new(BASEFREQ, SAMPLERATE, SENSITIVITY);
    let mut smoother_i32 = DynamicSmootherEcoI32::new(
        (BASEFREQ * (1 << I32_FRAC_BITS) as f32) as i32,
        (SAMPLERATE * (1 << I32_FRAC_BITS) as f32) as i32,
        (SENSITIVITY * (1 << I32_FRAC_BITS) as f32) as i32,
    );

    let mut rows = Vec::new();

    for n in 0..NUM_SAMPLES {
        let input_value = if n < NUM_SAMPLES / 2 {
            INPUT_VALUE
        } else {
            INPUT_VALUE * 0.9
        };

        let output_f32 = smoother_f32.tick(input_value);
        let output_i32 = smoother_i32.tick(input_value as i32);

        rows.push((input_value, output_f32, output_i32));
    }

    print_table(&rows);

    let outputs: Vec<i32> = rows.iter().map(|row| row.2).collect();
    assert_eq!(
        outputs,
        vec![
            0, 1000, 1000, 1000, 1000, 1000, 1000, 1000, 1000, 1000, 999, 900, 900, 900, 900, 900,
            900, 900, 900, 900
        ]
    );
    // Both domains agree within one part in 1000 of the step at every sample.
    for row in rows.iter() {
        assert!((row.1 - row.2 as f32).abs() <= 1.0);
    }
}

#[test]
/// Check step response with low cutoff frequency.
fn step_response_low_freq() {
    const NUM_SAMPLES: usize = 20;
    const INPUT_VALUE: f32 = 1000.0;

    const BASEFREQ: f32 = 0.05;
    const SAMPLERATE: f32 = 100.0;
    const SENSITIVITY: f32 = 0.05;

    let mut smoother_f32 = SmootherF32::new(BASEFREQ, SAMPLERATE, SENSITIVITY);
    let mut smoother_i32 = DynamicSmootherEcoI32::new(
        (BASEFREQ * (1 << I32_FRAC_BITS) as f32) as i32,
        (SAMPLERATE * (1 << I32_FRAC_BITS) as f32) as i32,
        (SENSITIVITY * (1 << I32_FRAC_BITS) as f32) as i32,
    );

    let mut rows = Vec::new();

    for n in 0..NUM_SAMPLES {
        let input_value = if n < NUM_SAMPLES / 2 {
            INPUT_VALUE
        } else {
            INPUT_VALUE * 0.9
        };

        let output_f32 = smoother_f32.tick(input_value);
        let output_i32 = smoother_i32.tick(input_value as i32);

        rows.push((input_value, output_f32, output_i32));
    }

    print_table(&rows);

    let outputs: Vec<i32> = rows.iter().map(|row| row.2).collect();
    assert_eq!(
        outputs,
        vec![
            0, 370, 1000, 1000, 1000, 1000, 1000, 1000, 1000, 1000, 999, 999, 900, 900, 900, 900,
            900, 900, 900, 900
        ]
    );
    // While the first step is under way the coarser base coefficient of the
    // integer domain shows; everywhere else both agree within one part in
    // 1000 of the step.
    for (n, row) in rows.iter().enumerate() {
        let tolerance = if n == 1 { 30.0 } else { 1.0 };
        assert!((row.1 - row.2 as f32).abs() <= tolerance, "sample {}", n);
    }
}
