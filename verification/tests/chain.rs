use bevy_sonus::filter::{AudioFilter, FilterType};
use bevy_sonus::source::{
    output_channels, output_span_len, plan_stages, SpatialAudioChain, CHAIN_BLOCK_FRAMES,
};

struct Gain {
    gain: f32,
    updates: u32,
    last_rate: u32,
}

impl AudioFilter<f32> for Gain {
    fn process(&mut self, samples: &mut [f32]) {
        for s in samples.iter_mut() {
            *s *= self.gain;
        }
    }

    fn update(&mut self, sample_rate: u32) {
        self.updates += 1;
        self.last_rate = sample_rate;
    }
}

fn drain<I: Iterator<Item = f32>, F: AudioFilter<f32>>(chain: &mut SpatialAudioChain<f32, I, F>) -> Vec<f32> {
    let mut out = Vec::new();
    while let Some(s) = chain.next() {
        out.push(s);
    }
    out
}

#[test]
fn chain_without_filters_yields_input_in_order() {
    let input: Vec<f32> = (0..1000).map(|i| i as f32 * 0.001).collect();
    let mut chain: SpatialAudioChain<f32, _, Gain> =
        SpatialAudioChain::new(input.clone().into_iter(), 2, 48_000, Vec::new());
    assert_eq!(drain(&mut chain), input);
    assert_eq!(chain.next(), None);
}

#[test]
fn chain_reports_stream_format() {
    let chain: SpatialAudioChain<f32, _, Gain> =
        SpatialAudioChain::new(vec![0.0f32; 4].into_iter(), 2, 44_100, Vec::new());
    assert_eq!(chain.channels(), 2);
    assert_eq!(chain.sample_rate(), 44_100);
    assert_eq!(chain.input().len(), 4);
}

#[test]
fn chain_applies_every_filter_to_every_sample() {
    let input = vec![1.0f32; 300];
    let filters = vec![
        Gain { gain: 0.5, updates: 0, last_rate: 0 },
        Gain { gain: 4.0, updates: 0, last_rate: 0 },
    ];
    let mut chain = SpatialAudioChain::new(input.into_iter(), 1, 22_050, filters);
    let out = drain(&mut chain);
    assert_eq!(out.len(), 300);
    assert!(out.iter().all(|&s| s == 2.0));
}

#[test]
fn chain_updates_filters_once_per_block() {
    let block = CHAIN_BLOCK_FRAMES as usize;
    let input = vec![1.0f32; block * 2 + 1];
    let filters = vec![Gain { gain: 1.0, updates: 0, last_rate: 0 }];
    let mut chain = SpatialAudioChain::new(input.into_iter(), 1, 8_000, filters);
    for _ in 0..block {
        assert_eq!(chain.next(), Some(1.0));
    }
    assert_eq!(chain.next(), Some(1.0));
    assert_eq!(drain(&mut chain).len(), block);
    assert_eq!(chain.next(), None);
}

#[test]
fn chain_over_empty_input_ends_at_once() {
    let mut chain: SpatialAudioChain<f32, _, Gain> =
        SpatialAudioChain::new(Vec::<f32>::new().into_iter(), 2, 48_000, Vec::new());
    assert_eq!(chain.next(), None);
    assert_eq!(chain.next(), None);
}

#[test]
fn filter_types_compare_by_kind() {
    assert_eq!(FilterType::LowPass, FilterType::LowPass);
    assert_ne!(FilterType::LowPass, FilterType::HighPass);
    assert_ne!(FilterType::HighPass, FilterType::Reverb);
}

#[test]
fn upmixed_output_is_stereo() {
    assert_eq!(output_channels(1, true), 2);
    assert_eq!(output_channels(1, false), 1);
    assert_eq!(output_channels(6, false), 6);
}

#[test]
fn upmixed_span_is_twice_as_long() {
    assert_eq!(output_span_len(Some(512), true), Some(1024));
    assert_eq!(output_span_len(Some(512), false), Some(512));
    assert_eq!(output_span_len(None, true), None);
    assert_eq!(output_span_len(None, false), None);
}

struct Offset {
    offset: f32,
}

impl AudioFilter<f32> for Offset {
    fn process(&mut self, samples: &mut [f32]) {
        for s in samples.iter_mut() {
            *s += self.offset;
        }
    }

    fn update(&mut self, _sample_rate: u32) {}
}

enum Stage {
    Gain(Gain),
    Offset(Offset),
}

impl AudioFilter<f32> for Stage {
    fn process(&mut self, samples: &mut [f32]) {
        match self {
            Stage::Gain(g) => g.process(samples),
            Stage::Offset(o) => o.process(samples),
        }
    }

    fn update(&mut self, sample_rate: u32) {
        match self {
            Stage::Gain(g) => g.update(sample_rate),
            Stage::Offset(o) => o.update(sample_rate),
        }
    }
}

#[test]
fn chain_runs_filters_in_list_order() {
    let gain_then_offset = vec![
        Stage::Gain(Gain { gain: 2.0, updates: 0, last_rate: 0 }),
        Stage::Offset(Offset { offset: 1.0 }),
    ];
    let mut chain = SpatialAudioChain::new(vec![3.0f32; 4].into_iter(), 1, 48_000, gain_then_offset);
    assert_eq!(drain(&mut chain), vec![7.0; 4]);

    let offset_then_gain = vec![
        Stage::Offset(Offset { offset: 1.0 }),
        Stage::Gain(Gain { gain: 2.0, updates: 0, last_rate: 0 }),
    ];
    let mut chain = SpatialAudioChain::new(vec![3.0f32; 4].into_iter(), 1, 48_000, offset_then_gain);
    assert_eq!(drain(&mut chain), vec![8.0; 4]);
}

struct RateStamp {
    rate: u32,
    updates: u32,
    processes: u32,
}

impl AudioFilter<f32> for RateStamp {
    fn process(&mut self, samples: &mut [f32]) {
        self.processes += 1;
        for s in samples.iter_mut() {
            *s = self.rate as f32 + (self.updates - self.processes) as f32;
        }
    }

    fn update(&mut self, sample_rate: u32) {
        self.updates += 1;
        self.rate = sample_rate;
    }
}

#[test]
fn chain_updates_each_filter_before_processing_its_block() {
    let filters = vec![RateStamp { rate: 0, updates: 0, processes: 0 }];
    let mut chain = SpatialAudioChain::new(vec![0.0f32; 300].into_iter(), 1, 1_000, filters);
    let out = drain(&mut chain);
    assert_eq!(out.len(), 300);
    assert!(out.iter().all(|&s| s == 1_000.0));
}

#[test]
fn chain_with_block_size_refills_per_block() {
    let filters = vec![RateStamp { rate: 0, updates: 0, processes: 0 }];
    let mut chain = SpatialAudioChain::with_block_size(vec![0.0f32; 10].into_iter(), 4, 2, 500, filters);
    assert_eq!(chain.channels(), 2);
    assert_eq!(chain.buffer().capacity(), 8);
    assert_eq!(chain.next(), Some(500.0));
    assert_eq!(chain.buffer().as_slice().len(), 8);
    assert_eq!(drain(&mut chain).len(), 9);
}

#[test]
fn filters_are_not_touched_when_input_is_empty() {
    let filters = vec![RateStamp { rate: 7, updates: 0, processes: 0 }];
    let mut chain = SpatialAudioChain::new(Vec::<f32>::new().into_iter(), 1, 44_100, filters);
    assert_eq!(chain.next(), None);
    assert_eq!(chain.fill_and_process_block(), None);
    assert!(chain.buffer().is_empty());
}

#[test]
fn stage_plan_orders_occlusion_attenuation_panning() {
    let plan = plan_stages(Some("occlusion"), Some("attenuation"), Some("panning"), 2);
    assert_eq!(plan.stages, vec!["occlusion", "attenuation", "panning"]);
    assert_eq!(plan.upmix, None);
}

#[test]
fn stage_plan_upmixes_mono_with_panning() {
    let plan = plan_stages(Some("occlusion"), None, Some("panning"), 1);
    assert_eq!(plan.stages, vec!["occlusion"]);
    assert_eq!(plan.upmix, Some("panning"));
}

#[test]
fn stage_plan_without_stages_is_empty() {
    let plan = plan_stages::<u8>(None, None, None, 1);
    assert!(plan.stages.is_empty());
    assert_eq!(plan.upmix, None);
    let plan = plan_stages(None, Some(2u8), None, 6);
    assert_eq!(plan.stages, vec![2]);
}
