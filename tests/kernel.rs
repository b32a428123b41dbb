use ray_tracer::schedule::{RenderPhase, RenderStep};
use ray_tracer::{classify_ray, nearest_hit, PngSink, RayTraceOutputParams, RayTracer, RayVerdict};

fn dist(d: f64) -> Option<u64> {
    Some(d.to_bits())
}

#[test]
fn output_params_getters() {
    let p = RayTraceOutputParams::new(640, 480, 3);
    assert_eq!(p.get_width(), 640);
    assert_eq!(p.get_height(), 480);
    assert_eq!(p.get_frames(), 3);
    assert_eq!(p.pixel_count(), Some(307200));
}

#[test]
fn pixel_count_overflow() {
    let p = RayTraceOutputParams::new(usize::MAX, 2, 1);
    assert_eq!(p.pixel_count(), None);
}

#[test]
fn pixel_tasks_row_by_row() {
    let p = RayTraceOutputParams::new(3, 2, 1);
    assert_eq!(p.pixel_of_task(0), (0, 0));
    assert_eq!(p.pixel_of_task(2), (2, 0));
    assert_eq!(p.pixel_of_task(3), (0, 1));
    assert_eq!(p.pixel_of_task(5), (2, 1));
}

#[test]
fn nearest_hit_none_without_candidates() {
    assert_eq!(nearest_hit(&vec![]), None);
    assert_eq!(nearest_hit(&vec![None, None]), None);
}

#[test]
fn nearest_hit_picks_smallest_distance() {
    let c = vec![dist(3.5), None, dist(0.25), dist(7.0)];
    assert_eq!(nearest_hit(&c), Some(2));
}

#[test]
fn nearest_hit_tie_goes_to_earlier_object() {
    let c = vec![dist(9.0), dist(2.0), dist(2.0)];
    assert_eq!(nearest_hit(&c), Some(1));
}

#[test]
fn nearest_hit_ignores_invalid_distances() {
    let c = vec![dist(0.0), dist(-0.0), dist(-1.0), dist(f64::NAN), dist(f64::INFINITY)];
    assert_eq!(nearest_hit(&c), Some(4));
    let c = vec![dist(0.0), dist(-3.0), dist(f64::NAN)];
    assert_eq!(nearest_hit(&c), None);
}

#[test]
fn nearest_hit_small_positive_distances() {
    let c = vec![dist(1e-300), dist(f64::MIN_POSITIVE), dist(5e-324)];
    assert_eq!(nearest_hit(&c), Some(2));
}

#[test]
fn primary_miss_takes_background() {
    assert_eq!(classify_ray(0, 3, &vec![None]), RayVerdict::Background);
    assert_eq!(classify_ray(0, 0, &vec![]), RayVerdict::Background);
}

#[test]
fn secondary_miss_takes_indirect() {
    assert_eq!(classify_ray(1, 3, &vec![None, dist(-2.0)]), RayVerdict::Indirect);
}

#[test]
fn depth_beyond_limit_takes_indirect() {
    // With max_depth 0 a mirror hit by the primary ray reflects at depth 1,
    // which is cut off whatever it would hit.
    let primary = classify_ray(0, 0, &vec![dist(1.0)]);
    assert_eq!(primary, RayVerdict::Surface { hit: 0, reflect_depth: 1 });
    assert_eq!(classify_ray(1, 0, &vec![dist(1.0)]), RayVerdict::Indirect);
    assert_eq!(classify_ray(4, 3, &vec![dist(0.5), dist(0.1)]), RayVerdict::Indirect);
}

#[test]
fn two_parallel_mirrors_stop_after_limit() {
    let max_depth: usize = 2;
    let mut depth: usize = 0;
    let mut bounces: usize = 0;
    loop {
        match classify_ray(depth, max_depth, &vec![dist(1.0), dist(1.0)]) {
            RayVerdict::Surface { hit, reflect_depth } => {
                assert_eq!(hit, 0);
                bounces += 1;
                depth = reflect_depth;
            }
            v => {
                assert_eq!(v, RayVerdict::Indirect);
                break;
            }
        }
    }
    assert_eq!(bounces, max_depth + 1);
}

#[test]
fn coincident_hits_resolve_to_first_object() {
    let c = vec![None, dist(4.0), dist(4.0)];
    assert_eq!(classify_ray(0, 1, &c), RayVerdict::Surface { hit: 1, reflect_depth: 1 });
}

#[test]
fn box_front_face_at_distance_four() {
    // A box face struck at distance 4, behind it the opposite face at 6.
    let c = vec![dist(4.0)];
    assert_eq!(classify_ray(0, 0, &c), RayVerdict::Surface { hit: 0, reflect_depth: 1 });
    let c = vec![dist(6.0), dist(4.0)];
    assert_eq!(nearest_hit(&c), Some(1));
}

fn run(frames: usize, fail_at: Option<usize>) -> Vec<RenderStep> {
    let out = RayTraceOutputParams::new(4, 2, frames);
    let tracer = RayTracer::new();
    let mut schedule = tracer.schedule(&out);
    assert_eq!(schedule.phase(), RenderPhase::Idle);
    let mut steps = Vec::new();
    let mut ok = true;
    loop {
        let step = schedule.next_step(ok);
        steps.push(step);
        if step == RenderStep::Finished || step == RenderStep::Abort {
            break;
        }
        ok = fail_at != Some(steps.len() - 1);
    }
    steps
}

#[test]
fn schedule_runs_frames_in_order() {
    let steps = run(2, None);
    assert_eq!(
        steps,
        vec![
            RenderStep::InitSink { width: 4, height: 2, frames: 2 },
            RenderStep::StartFrame(0),
            RenderStep::InitFrame(0),
            RenderStep::Dispatch(0),
            RenderStep::FinishFrame(0),
            RenderStep::StartFrame(1),
            RenderStep::InitFrame(1),
            RenderStep::Dispatch(1),
            RenderStep::FinishFrame(1),
            RenderStep::Finished,
        ]
    );
}

#[test]
fn schedule_without_frames() {
    let steps = run(0, None);
    assert_eq!(steps, vec![RenderStep::InitSink { width: 4, height: 2, frames: 0 }, RenderStep::Finished]);
}

#[test]
fn schedule_aborts_on_failure() {
    let steps = run(3, Some(3));
    assert_eq!(
        steps,
        vec![
            RenderStep::InitSink { width: 4, height: 2, frames: 3 },
            RenderStep::StartFrame(0),
            RenderStep::InitFrame(0),
            RenderStep::Dispatch(0),
            RenderStep::Abort,
        ]
    );
}

#[test]
fn schedule_stays_aborted() {
    let out = RayTraceOutputParams::new(1, 1, 5);
    let mut schedule = RayTracer::new().schedule(&out);
    schedule.next_step(true);
    assert_eq!(schedule.next_step(false), RenderStep::Abort);
    assert_eq!(schedule.phase(), RenderPhase::Failed);
    assert_eq!(schedule.next_step(true), RenderStep::Abort);
}

#[test]
fn sink_new_and_init() {
    let mut sink = PngSink::new(String::from("out.png"));
    assert_eq!(sink.get_width(), 0);
    assert_eq!(sink.get_height(), 0);
    assert_eq!(sink.get_buffer(), &vec![0u8]);
    sink.init(3, 2, 1);
    assert_eq!(sink.get_width(), 3);
    assert_eq!(sink.get_height(), 2);
    assert_eq!(sink.get_buffer().len(), 24);
    assert!(sink.get_buffer().iter().all(|b| *b == 0));
}

#[test]
fn sink_sample_lands_at_pixel_offset() {
    let mut sink = PngSink::new(String::from("out"));
    sink.init(3, 2, 1);
    sink.set_sample(1, 1, [10, 20, 30, 255]);
    let b = sink.get_buffer();
    assert_eq!(&b[16..20], &[10, 20, 30, 255]);
    assert_eq!(b.iter().filter(|v| **v != 0).count(), 4);
    sink.set_sample(0, 0, [1, 2, 3, 4]);
    assert_eq!(&sink.get_buffer()[0..4], &[1, 2, 3, 4]);
}

#[test]
fn frame_file_names() {
    assert_eq!(PngSink::new(String::from("out.png")).frame_file_name(7), "out0007.png");
    assert_eq!(PngSink::new(String::from("OUT.PNG")).frame_file_name(12345), "OUT12345.png");
    assert_eq!(PngSink::new(String::from("render")).frame_file_name(42), "render0042.png");
    assert_eq!(PngSink::new(String::from("a.jpg")).frame_file_name(0), "a.jpg0000.png");
    assert_eq!(PngSink::new(String::from("x.Png")).frame_file_name(999), "x0999.png");
    assert_eq!(PngSink::new(String::from("png")).frame_file_name(1000), "png1000.png");
    assert_eq!(PngSink::new(String::from("ü.png")).frame_file_name(3), "ü0003.png");
}
