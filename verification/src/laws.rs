//! Laws about the shape of every stop plan: which progress reports it carries
//! and when it needs a container conversion.

use vstd::prelude::*;
use crate::config::BackendKind;
use crate::session::{
    stage1_actions, stage2_actions, stage3_actions, stage4_actions, stage5_actions,
    stage6_actions, stop_actions, ArtifactKind, ArtifactProbe, RecordingSession, StageAction,
};

verus! {

/// Picks the progress reports out of a plan.
pub open spec fn report_pred() -> spec_fn(StageAction) -> bool {
    |a: StageAction| a is Report
}

/// Picks the container conversions out of a plan: the compositor transcode
/// and the audio-only conversion (a merge copies the video stream, it does
/// not convert a container).
pub open spec fn conversion_pred() -> spec_fn(StageAction) -> bool {
    |a: StageAction| a is Transcode || a is ConvertAudio
}

proof fn lemma_filter_none(acts: Seq<StageAction>, p: spec_fn(StageAction) -> bool)
    requires
        forall|i: int| 0 <= i < acts.len() ==> !p(#[trigger] acts[i]),
    ensures
        acts.filter(p) == Seq::<StageAction>::empty(),
    decreases acts.len(),
{
    reveal(Seq::filter);
    if acts.len() == 0 {
        assert(acts =~= Seq::<StageAction>::empty());
    } else {
        lemma_filter_none(acts.drop_last(), p);
    }
}

proof fn lemma_filter_one(x: StageAction, p: spec_fn(StageAction) -> bool)
    ensures
        seq![x].filter(p) == if p(x) {
            seq![x]
        } else {
            Seq::<StageAction>::empty()
        },
{
    reveal(Seq::filter);
    let s = seq![x];
    assert(s.drop_last() =~= Seq::<StageAction>::empty());
    lemma_filter_none(s.drop_last(), p);
    assert(s.last() == x);
    if p(x) {
        assert(s.filter(p) =~= seq![x]);
    } else {
        assert(s.filter(p) =~= Seq::<StageAction>::empty());
    }
}

proof fn lemma_filter_two(x: StageAction, y: StageAction, p: spec_fn(StageAction) -> bool)
    ensures
        seq![x, y].filter(p) == seq![x].filter(p) + seq![y].filter(p),
{
    assert(seq![x, y] =~= seq![x] + seq![y]);
    Seq::filter_distributes_over_add(seq![x], seq![y], p);
}

/// The six-stage law: every stop plan reports exactly the six stages, in
/// order, whatever was recording and whatever the probe found — a stop with
/// no active capture still walks all six stages.
pub proof fn lemma_stop_reports_all_stages(s: RecordingSession, probe: ArtifactProbe)
    ensures
        stop_actions(s, probe).filter(report_pred()) == seq![
            StageAction::Report { stage: 1u8 },
            StageAction::Report { stage: 2u8 },
            StageAction::Report { stage: 3u8 },
            StageAction::Report { stage: 4u8 },
            StageAction::Report { stage: 5u8 },
            StageAction::Report { stage: 6u8 },
        ],
{
    let p = report_pred();
    lemma_stage_filters(s, probe, p);
    lemma_chain_filter(s, probe, p);
    assert(seq![StageAction::Report { stage: 1u8 }].filter(p) + stage1_actions(s).filter(p) + seq![
        StageAction::Report { stage: 2u8 },
    ].filter(p) + stage2_actions(s).filter(p) + seq![StageAction::Report { stage: 3u8 }].filter(p)
        + stage3_actions(s, probe).filter(p) + seq![StageAction::Report { stage: 4u8 }].filter(p)
        + stage4_actions(s, probe).filter(p) + seq![StageAction::Report { stage: 5u8 }].filter(p)
        + stage5_actions(probe).filter(p) + stage6_actions(s).filter(p) + seq![
        StageAction::Report { stage: 6u8 },
        StageAction::HideProgress,
    ].filter(p) =~= seq![
        StageAction::Report { stage: 1u8 },
        StageAction::Report { stage: 2u8 },
        StageAction::Report { stage: 3u8 },
        StageAction::Report { stage: 4u8 },
        StageAction::Report { stage: 5u8 },
        StageAction::Report { stage: 6u8 },
    ]);
}

/// Filtering distributes over the whole stop chain.
proof fn lemma_chain_filter(s: RecordingSession, probe: ArtifactProbe, p: spec_fn(
    StageAction,
) -> bool)
    ensures
        stop_actions(s, probe).filter(p) == seq![StageAction::Report { stage: 1u8 }].filter(p)
            + stage1_actions(s).filter(p) + seq![StageAction::Report { stage: 2u8 }].filter(p)
            + stage2_actions(s).filter(p) + seq![StageAction::Report { stage: 3u8 }].filter(p)
            + stage3_actions(s, probe).filter(p) + seq![StageAction::Report { stage: 4u8 }].filter(
            p,
        ) + stage4_actions(s, probe).filter(p) + seq![StageAction::Report { stage: 5u8 }].filter(p)
            + stage5_actions(probe).filter(p) + stage6_actions(s).filter(p) + seq![
            StageAction::Report { stage: 6u8 },
            StageAction::HideProgress,
        ].filter(p),
{
    let r1 = seq![StageAction::Report { stage: 1u8 }];
    let c1 = r1 + stage1_actions(s);
    let c2a = c1 + seq![StageAction::Report { stage: 2u8 }];
    let c2 = c2a + stage2_actions(s);
    let c3a = c2 + seq![StageAction::Report { stage: 3u8 }];
    let c3 = c3a + stage3_actions(s, probe);
    let c4a = c3 + seq![StageAction::Report { stage: 4u8 }];
    let c4 = c4a + stage4_actions(s, probe);
    let c5a = c4 + seq![StageAction::Report { stage: 5u8 }];
    let c5 = c5a + stage5_actions(probe);
    let c6 = c5 + stage6_actions(s);
    let tail = seq![StageAction::Report { stage: 6u8 }, StageAction::HideProgress];
    assert(stop_actions(s, probe) == c6 + tail);
    Seq::filter_distributes_over_add(c6, tail, p);
    Seq::filter_distributes_over_add(c5, stage6_actions(s), p);
    Seq::filter_distributes_over_add(c5a, stage5_actions(probe), p);
    Seq::filter_distributes_over_add(c4, seq![StageAction::Report { stage: 5u8 }], p);
    Seq::filter_distributes_over_add(c4a, stage4_actions(s, probe), p);
    Seq::filter_distributes_over_add(c3, seq![StageAction::Report { stage: 4u8 }], p);
    Seq::filter_distributes_over_add(c3a, stage3_actions(s, probe), p);
    Seq::filter_distributes_over_add(c2, seq![StageAction::Report { stage: 3u8 }], p);
    Seq::filter_distributes_over_add(c2a, stage2_actions(s), p);
    Seq::filter_distributes_over_add(c1, seq![StageAction::Report { stage: 2u8 }], p);
    Seq::filter_distributes_over_add(r1, stage1_actions(s), p);
}

/// The reports filter of every stage's own actions, and of the reports
/// themselves.
proof fn lemma_stage_filters(s: RecordingSession, probe: ArtifactProbe, p: spec_fn(
    StageAction,
) -> bool)
    requires
        p == report_pred(),
    ensures
        stage1_actions(s).filter(p) == Seq::<StageAction>::empty(),
        stage2_actions(s).filter(p) == Seq::<StageAction>::empty(),
        stage3_actions(s, probe).filter(p) == Seq::<StageAction>::empty(),
        stage4_actions(s, probe).filter(p) == Seq::<StageAction>::empty(),
        stage5_actions(probe).filter(p) == Seq::<StageAction>::empty(),
        stage6_actions(s).filter(p) == Seq::<StageAction>::empty(),
        seq![StageAction::Report { stage: 1u8 }].filter(p) == seq![
            StageAction::Report { stage: 1u8 },
        ],
        seq![StageAction::Report { stage: 2u8 }].filter(p) == seq![
            StageAction::Report { stage: 2u8 },
        ],
        seq![StageAction::Report { stage: 3u8 }].filter(p) == seq![
            StageAction::Report { stage: 3u8 },
        ],
        seq![StageAction::Report { stage: 4u8 }].filter(p) == seq![
            StageAction::Report { stage: 4u8 },
        ],
        seq![StageAction::Report { stage: 5u8 }].filter(p) == seq![
            StageAction::Report { stage: 5u8 },
        ],
        seq![StageAction::Report { stage: 6u8 }, StageAction::HideProgress].filter(p) == seq![
            StageAction::Report { stage: 6u8 },
        ],
{
    lemma_filter_none(stage1_actions(s), p);
    lemma_filter_none(stage2_actions(s), p);
    lemma_filter_none(stage3_actions(s, probe), p);
    lemma_filter_none(stage4_actions(s, probe), p);
    lemma_filter_none(stage5_actions(probe), p);
    lemma_filter_none(stage6_actions(s), p);
    lemma_filter_one(StageAction::Report { stage: 1u8 }, p);
    lemma_filter_one(StageAction::Report { stage: 2u8 }, p);
    lemma_filter_one(StageAction::Report { stage: 3u8 }, p);
    lemma_filter_one(StageAction::Report { stage: 4u8 }, p);
    lemma_filter_one(StageAction::Report { stage: 5u8 }, p);
    lemma_filter_two(StageAction::Report { stage: 6u8 }, StageAction::HideProgress, p);
    lemma_filter_one(StageAction::Report { stage: 6u8 }, p);
    lemma_filter_one(StageAction::HideProgress, p);
    assert(seq![StageAction::Report { stage: 6u8 }, StageAction::HideProgress].filter(p) =~= seq![
        StageAction::Report { stage: 6u8 },
    ]);
}

/// The conversion law, compositor side: a compositor capture always yields an
/// intermediate container, so whenever its raw capture exists at stop time
/// the plan carries exactly one container conversion — the transcode of the
/// capture, staged when an audio track is also present, final otherwise —
/// even when the chosen container matches the compositor's native one.
pub proof fn lemma_compositor_always_transcodes(s: RecordingSession, probe: ArtifactProbe)
    requires
        s.backend == BackendKind::Compositor,
        probe.video_present,
    ensures
        stop_actions(s, probe).filter(conversion_pred()) == seq![
            StageAction::Transcode {
                input: ArtifactKind::TempVideo,
                output: if probe.audio_present {
                    ArtifactKind::TempWithoutAudio
                } else {
                    ArtifactKind::FinalOutput
                },
            },
        ],
{
    let p = conversion_pred();
    let conv = StageAction::Transcode {
        input: ArtifactKind::TempVideo,
        output: if probe.audio_present {
            ArtifactKind::TempWithoutAudio
        } else {
            ArtifactKind::FinalOutput
        },
    };
    lemma_chain_filter(s, probe, p);
    lemma_filter_none(stage1_actions(s), p);
    lemma_filter_none(stage2_actions(s), p);
    lemma_filter_none(stage4_actions(s, probe), p);
    lemma_filter_none(stage5_actions(probe), p);
    lemma_filter_none(stage6_actions(s), p);
    lemma_filter_one(StageAction::Report { stage: 1u8 }, p);
    lemma_filter_one(StageAction::Report { stage: 2u8 }, p);
    lemma_filter_one(StageAction::Report { stage: 3u8 }, p);
    lemma_filter_one(StageAction::Report { stage: 4u8 }, p);
    lemma_filter_one(StageAction::Report { stage: 5u8 }, p);
    lemma_filter_two(StageAction::Report { stage: 6u8 }, StageAction::HideProgress, p);
    lemma_filter_one(StageAction::Report { stage: 6u8 }, p);
    lemma_filter_one(StageAction::HideProgress, p);

    let ipc: Seq<StageAction> = if s.video_handle is Some {
        seq![StageAction::StopScreencastIpc]
    } else {
        Seq::<StageAction>::empty()
    };
    let worker: Seq<StageAction> = if s.video_handle is Some || s.worker_live {
        seq![StageAction::SignalWorkerStop]
    } else {
        Seq::<StageAction>::empty()
    };
    let files = seq![conv, StageAction::DeleteFile { name: ArtifactKind::TempVideo }];
    assert(stage3_actions(s, probe) == ipc + worker + files);
    Seq::filter_distributes_over_add(ipc + worker, files, p);
    Seq::filter_distributes_over_add(ipc, worker, p);
    lemma_filter_none(ipc, p);
    lemma_filter_none(worker, p);
    lemma_filter_two(conv, StageAction::DeleteFile { name: ArtifactKind::TempVideo }, p);
    lemma_filter_one(conv, p);
    lemma_filter_one(StageAction::DeleteFile { name: ArtifactKind::TempVideo }, p);
    assert(stage3_actions(s, probe).filter(p) =~= seq![conv]);
    assert(stop_actions(s, probe).filter(p) =~= seq![conv]);
}

/// The conversion law, direct side: the direct backend writes the chosen
/// container from the start, so a stop with no audio track present needs no
/// container conversion at all.
pub proof fn lemma_direct_video_only_no_conversion(s: RecordingSession, probe: ArtifactProbe)
    requires
        s.backend == BackendKind::Direct,
        probe.video_present,
        !probe.audio_present,
    ensures
        stop_actions(s, probe).filter(conversion_pred()) == Seq::<StageAction>::empty(),
{
    let p = conversion_pred();
    lemma_chain_filter(s, probe, p);
    lemma_filter_none(stage1_actions(s), p);
    lemma_filter_none(stage2_actions(s), p);
    lemma_filter_none(stage3_actions(s, probe), p);
    lemma_filter_none(stage4_actions(s, probe), p);
    lemma_filter_none(stage5_actions(probe), p);
    lemma_filter_none(stage6_actions(s), p);
    lemma_filter_one(StageAction::Report { stage: 1u8 }, p);
    lemma_filter_one(StageAction::Report { stage: 2u8 }, p);
    lemma_filter_one(StageAction::Report { stage: 3u8 }, p);
    lemma_filter_one(StageAction::Report { stage: 4u8 }, p);
    lemma_filter_one(StageAction::Report { stage: 5u8 }, p);
    lemma_filter_two(StageAction::Report { stage: 6u8 }, StageAction::HideProgress, p);
    lemma_filter_one(StageAction::Report { stage: 6u8 }, p);
    lemma_filter_one(StageAction::HideProgress, p);
    assert(stop_actions(s, probe).filter(p) =~= Seq::<StageAction>::empty());
}

} // verus!
