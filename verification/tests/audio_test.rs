use edge_ort_runtime::audio::{PullStep, SampleQueue, SourceKind, WavFileSource, DEFAULT_CHUNK_SAMPLES, PCM_SAMPLE_RATE};
use edge_ort_runtime::vad::{next_context, padded_window, vad_windows, window_input};

#[test]
fn source_kind_names() {
    assert_eq!(SourceKind::Mic.as_str(), "mic");
    assert_eq!(SourceKind::Monitor.as_str(), "monitor");
    assert_eq!(PCM_SAMPLE_RATE, 16_000);
    assert_eq!(DEFAULT_CHUNK_SAMPLES, 1600);
}

#[test]
fn file_source_delivers_all_samples_in_chunks() {
    let samples: Vec<i32> = (0..10).collect();
    let mut whole = WavFileSource::from_samples("a.wav", samples.clone());
    assert_eq!(whole.name(), "file:a.wav");
    assert_eq!(whole.len_samples(), 10);
    assert_eq!(whole.pull().ok().unwrap(), samples);
    assert!(whole.pull().ok().unwrap().is_empty());

    let mut src = WavFileSource::from_samples("b.wav", samples.clone()).with_chunk_samples(4);
    let mut all = Vec::new();
    let mut sizes = Vec::new();
    loop {
        let c = src.pull().ok().unwrap();
        if c.is_empty() {
            break;
        }
        sizes.push(c.len());
        all.extend(c);
    }
    assert_eq!(sizes, vec![4, 4, 2]);
    assert_eq!(all, samples);
    assert_eq!(WavFileSource::<i32>::path_name("x/y.wav"), "x/y.wav");
}

#[test]
fn queue_pull_steps() {
    let mut q = SampleQueue::<i32>::with_chunk_samples(100);
    assert_eq!(q.len(), 0);
    let data: Vec<i32> = (0..100).collect();
    q.push(&data);
    assert_eq!(q.len(), 100);
    let step = q.pull_step();
    assert_eq!(step, PullStep::Take(100));
    let pulled = q.apply(step, 0);
    assert_eq!(pulled.len(), 100);
    assert_eq!(pulled[0], 0);
    assert_eq!(q.len(), 0);
    assert_eq!(q.pull_step(), PullStep::Wait);
    assert_eq!(q.timeout_step(), PullStep::Silence(100));
    assert_eq!(q.apply(PullStep::Silence(3), 7), vec![7, 7, 7]);
}

#[test]
fn queue_close_and_end_of_stream() {
    let mut q = SampleQueue::<i32>::with_chunk_samples(50);
    q.push(&[1; 20]);
    assert!(!q.is_closed());
    q.close();
    assert!(q.is_closed());
    let step = q.pull_step();
    assert_eq!(step, PullStep::Take(20));
    assert_eq!(q.apply(step, 0).len(), 20);
    assert_eq!(q.pull_step(), PullStep::EndOfStream);
    assert_eq!(q.timeout_step(), PullStep::EndOfStream);
    assert_eq!(SampleQueue::<i32>::with_chunk_samples(0).chunk_samples(), 1);
}

#[test]
fn queue_is_fifo() {
    let mut q = SampleQueue::<i32>::with_chunk_samples(3);
    q.push(&[1, 2]);
    q.push(&[3, 4, 5]);
    let a = q.pull_step();
    assert_eq!(q.apply(a, 0), vec![1, 2, 3]);
    let b = q.timeout_step();
    assert_eq!(b, PullStep::Take(2));
    assert_eq!(q.apply(b, 0), vec![4, 5]);
}

#[test]
fn vad_windows_tile_the_chunk() {
    assert_eq!(vad_windows(1200, 512), vec![(0, 512), (512, 512), (1024, 176)]);
    assert_eq!(vad_windows(1024, 512), vec![(0, 512), (512, 512)]);
    assert_eq!(vad_windows(0, 512), vec![]);
    let pcm = [1, 2, 3];
    assert_eq!(padded_window(&pcm, 1, 2, 4, 0), vec![2, 3, 0, 0]);
    let input = window_input(&[9, 9], &[1, 2, 3]);
    assert_eq!(input, vec![9, 9, 1, 2, 3]);
    assert_eq!(next_context(vec![9, 9], &input, 2), vec![2, 3]);
    assert_eq!(next_context(vec![9, 9], &[1], 2), vec![9, 9]);
}

/// One pull of a push source over the queue, without waiting.
fn pull(q: &mut SampleQueue<f32>) -> Vec<f32> {
    let step = match q.pull_step() {
        PullStep::Wait => q.timeout_step(),
        s => s,
    };
    q.apply(step, 0.0)
}

#[test]
fn test_push_and_pull_exact_chunk() {
    let mut source = SampleQueue::<f32>::with_chunk_samples(100);
    assert_eq!(source.len(), 0);

    let data: Vec<f32> = (0..100).map(|i| i as f32 / 100.0).collect();
    source.push(&data);
    assert_eq!(source.len(), 100);

    let pulled = pull(&mut source);
    assert_eq!(pulled.len(), 100);
    assert_eq!(pulled[0], 0.0);
    assert_eq!(source.len(), 0);
}

#[test]
fn test_close_and_eos() {
    let mut source = SampleQueue::<f32>::with_chunk_samples(50);
    source.push(&[0.1; 20]);
    assert!(!source.is_closed());

    source.close();
    assert!(source.is_closed());

    let remaining = pull(&mut source);
    assert_eq!(remaining.len(), 20);

    let eos = pull(&mut source);
    assert!(eos.is_empty());
}
