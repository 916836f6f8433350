//! What executing a stop plan does to the files of a session, stated over an
//! abstract filesystem: the set of the session's four artifact names that
//! exist. The laws at the end hold for every session and every probe.

use vstd::prelude::*;
use crate::config::BackendKind;
use crate::session::{
    stage1_actions, stage2_actions, stage3_actions, stage4_actions, stage5_actions,
    stage6_actions, stop_actions, ArtifactKind, ArtifactProbe, RecordingSession, StageAction,
};

verus! {

/// Whether an action touches a file.
pub open spec fn is_file_action(a: StageAction) -> bool {
    ||| a is Transcode
    ||| a is Rename
    ||| a is Merge
    ||| a is ConvertAudio
    ||| a is DeleteFile
}

/// The effect of one action on the set of existing artifacts. Encoders write
/// their output (inputs are only removed by an explicit delete); a rename
/// moves its file, and renaming a name to itself does nothing; every other
/// action leaves the filesystem alone.
pub open spec fn apply_action(fs: Set<ArtifactKind>, a: StageAction) -> Set<ArtifactKind> {
    match a {
        StageAction::Transcode { input: _, output } => fs.insert(output),
        StageAction::Rename { from, to } => if from == to {
            fs
        } else {
            fs.remove(from).insert(to)
        },
        StageAction::Merge { video: _, audio: _, output } => fs.insert(output),
        StageAction::ConvertAudio { input: _, output } => fs.insert(output),
        StageAction::DeleteFile { name } => fs.remove(name),
        _ => fs,
    }
}

/// The effect of a whole plan, applied in order.
pub open spec fn apply_actions(fs: Set<ArtifactKind>, acts: Seq<StageAction>) -> Set<ArtifactKind>
    decreases acts.len(),
{
    if acts.len() == 0 {
        fs
    } else {
        apply_action(apply_actions(fs, acts.drop_last()), acts.last())
    }
}

/// The artifact the raw video capture produces: the direct backend writes
/// straight to the resolved path, the compositor to its temporary capture.
pub open spec fn video_artifact_of(backend: BackendKind) -> ArtifactKind {
    match backend {
        BackendKind::Direct => ArtifactKind::FinalOutput,
        BackendKind::Compositor => ArtifactKind::TempVideo,
    }
}

/// The artifacts on disk that a truthful probe reports when a stop begins.
pub open spec fn probe_fs(backend: BackendKind, probe: ArtifactProbe) -> Set<ArtifactKind> {
    (if probe.video_present {
        set![video_artifact_of(backend)]
    } else {
        Set::<ArtifactKind>::empty()
    }).union(
        if probe.audio_present {
            set![ArtifactKind::TempAudio]
        } else {
            Set::<ArtifactKind>::empty()
        },
    )
}

pub proof fn lemma_apply_actions_concat(fs: Set<ArtifactKind>, a: Seq<StageAction>, b: Seq<
    StageAction,
>)
    ensures
        apply_actions(fs, a + b) == apply_actions(apply_actions(fs, a), b),
    decreases b.len(),
{
    if b.len() == 0 {
        assert(a + b =~= a);
    } else {
        assert((a + b).drop_last() =~= a + b.drop_last());
        assert((a + b).last() == b.last());
        lemma_apply_actions_concat(fs, a, b.drop_last());
    }
}

proof fn lemma_apply_no_file(fs: Set<ArtifactKind>, acts: Seq<StageAction>)
    requires
        forall|i: int| 0 <= i < acts.len() ==> !is_file_action(#[trigger] acts[i]),
    ensures
        apply_actions(fs, acts) == fs,
    decreases acts.len(),
{
    if acts.len() > 0 {
        lemma_apply_no_file(fs, acts.drop_last());
    }
}

proof fn lemma_apply_one(fs: Set<ArtifactKind>, x: StageAction)
    ensures
        apply_actions(fs, seq![x]) == apply_action(fs, x),
{
    assert(seq![x].drop_last() =~= Seq::<StageAction>::empty());
    assert(apply_actions(fs, Seq::<StageAction>::empty()) == fs);
    assert(seq![x].last() == x);
}

proof fn lemma_apply_two(fs: Set<ArtifactKind>, x: StageAction, y: StageAction)
    ensures
        apply_actions(fs, seq![x, y]) == apply_action(apply_action(fs, x), y),
{
    assert(seq![x, y].drop_last() =~= seq![x]);
    lemma_apply_one(fs, x);
}

proof fn lemma_apply_three(fs: Set<ArtifactKind>, x: StageAction, y: StageAction, z: StageAction)
    ensures
        apply_actions(fs, seq![x, y, z]) == apply_action(
            apply_action(apply_action(fs, x), y),
            z,
        ),
{
    assert(seq![x, y, z].drop_last() =~= seq![x, y]);
    lemma_apply_two(fs, x, y);
}

/// The cleanup law: whatever the backend and whichever raw artifacts a
/// capture left behind, executing the stop plan on them leaves exactly one
/// file among the session's four names — the final artifact at the resolved
/// path — and none of the three temporary names.
pub proof fn lemma_stop_cleanup(s: RecordingSession, probe: ArtifactProbe)
    requires
        probe.video_present || probe.audio_present,
    ensures
        apply_actions(probe_fs(s.backend, probe), stop_actions(s, probe)) == set![
            ArtifactKind::FinalOutput,
        ],
{
    let fs0 = probe_fs(s.backend, probe);
    lemma_stop_effect(fs0, s, probe);
    if s.backend == BackendKind::Direct {
        if probe.video_present && probe.audio_present {
            assert(fs0.remove(ArtifactKind::FinalOutput).insert(ArtifactKind::TempWithoutAudio)
                .insert(ArtifactKind::FinalOutput).remove(ArtifactKind::TempAudio).remove(
                ArtifactKind::TempWithoutAudio,
            ) =~= set![ArtifactKind::FinalOutput]);
        } else if probe.video_present {
            assert(fs0 =~= set![ArtifactKind::FinalOutput]);
        } else {
            assert(fs0.insert(ArtifactKind::FinalOutput).remove(ArtifactKind::TempAudio) =~= set![
                ArtifactKind::FinalOutput,
            ]);
        }
    } else {
        if probe.video_present && probe.audio_present {
            assert(fs0.insert(ArtifactKind::TempWithoutAudio).remove(ArtifactKind::TempVideo)
                .insert(ArtifactKind::FinalOutput).remove(ArtifactKind::TempAudio).remove(
                ArtifactKind::TempWithoutAudio,
            ) =~= set![ArtifactKind::FinalOutput]);
        } else if probe.video_present {
            assert(fs0.insert(ArtifactKind::FinalOutput).remove(ArtifactKind::TempVideo) =~= set![
                ArtifactKind::FinalOutput,
            ]);
        } else {
            assert(fs0.insert(ArtifactKind::FinalOutput).remove(ArtifactKind::TempAudio) =~= set![
                ArtifactKind::FinalOutput,
            ]);
        }
    }
}

/// The effect of the full stop plan, stage by stage.
proof fn lemma_stop_effect(fs0: Set<ArtifactKind>, s: RecordingSession, probe: ArtifactProbe)
    ensures
        apply_actions(fs0, stop_actions(s, probe)) == apply_stage5(
            apply_stage4(apply_stage3(fs0, s, probe), s, probe),
            probe,
        ),
{
    let r1 = seq![StageAction::Report { stage: 1u8 }];
    let c1 = r1 + stage1_actions(s);
    let c2 = c1 + seq![StageAction::Report { stage: 2u8 }] + stage2_actions(s);
    let c3 = c2 + seq![StageAction::Report { stage: 3u8 }] + stage3_actions(s, probe);
    let c4 = c3 + seq![StageAction::Report { stage: 4u8 }] + stage4_actions(s, probe);
    let c5 = c4 + seq![StageAction::Report { stage: 5u8 }] + stage5_actions(probe);
    let c6 = c5 + stage6_actions(s);
    let t = c6 + seq![StageAction::Report { stage: 6u8 }, StageAction::HideProgress];
    assert(stop_actions(s, probe) == t);

    lemma_apply_no_file(fs0, c2);
    lemma_stage3_effect(fs0, s, probe);
    lemma_apply_actions_concat(fs0, c2, seq![StageAction::Report { stage: 3u8 }]);
    lemma_apply_actions_concat(
        fs0,
        c2 + seq![StageAction::Report { stage: 3u8 }],
        stage3_actions(s, probe),
    );
    lemma_apply_no_file(fs0, seq![StageAction::Report { stage: 3u8 }]);
    let f3 = apply_stage3(fs0, s, probe);
    assert(apply_actions(fs0, c3) == f3);

    lemma_apply_actions_concat(fs0, c3, seq![StageAction::Report { stage: 4u8 }]);
    lemma_apply_actions_concat(
        fs0,
        c3 + seq![StageAction::Report { stage: 4u8 }],
        stage4_actions(s, probe),
    );
    lemma_apply_no_file(f3, seq![StageAction::Report { stage: 4u8 }]);
    lemma_stage4_effect(f3, s, probe);
    let f4 = apply_stage4(f3, s, probe);
    assert(apply_actions(fs0, c4) == f4);

    lemma_apply_actions_concat(fs0, c4, seq![StageAction::Report { stage: 5u8 }]);
    lemma_apply_actions_concat(
        fs0,
        c4 + seq![StageAction::Report { stage: 5u8 }],
        stage5_actions(probe),
    );
    lemma_apply_no_file(f4, seq![StageAction::Report { stage: 5u8 }]);
    lemma_stage5_effect(f4, probe);
    let f5 = apply_stage5(f4, probe);
    assert(apply_actions(fs0, c5) == f5);

    lemma_apply_actions_concat(fs0, c5, stage6_actions(s));
    lemma_apply_no_file(f5, stage6_actions(s));
    lemma_apply_actions_concat(
        fs0,
        c6,
        seq![StageAction::Report { stage: 6u8 }, StageAction::HideProgress],
    );
    lemma_apply_no_file(f5, seq![StageAction::Report { stage: 6u8 }, StageAction::HideProgress]);
    assert(apply_actions(fs0, t) == f5);
}

/// The filesystem after stage 3.
pub open spec fn apply_stage3(
    fs: Set<ArtifactKind>,
    s: RecordingSession,
    probe: ArtifactProbe,
) -> Set<ArtifactKind> {
    if s.backend == BackendKind::Compositor && probe.video_present {
        fs.insert(
            if probe.audio_present {
                ArtifactKind::TempWithoutAudio
            } else {
                ArtifactKind::FinalOutput
            },
        ).remove(ArtifactKind::TempVideo)
    } else {
        fs
    }
}

/// The filesystem after stage 4.
pub open spec fn apply_stage4(
    fs: Set<ArtifactKind>,
    s: RecordingSession,
    probe: ArtifactProbe,
) -> Set<ArtifactKind> {
    if s.backend == BackendKind::Direct && probe.video_present && probe.audio_present {
        fs.remove(ArtifactKind::FinalOutput).insert(ArtifactKind::TempWithoutAudio)
    } else {
        fs
    }
}

/// The filesystem after stage 5.
pub open spec fn apply_stage5(fs: Set<ArtifactKind>, probe: ArtifactProbe) -> Set<ArtifactKind> {
    if probe.video_present && probe.audio_present {
        fs.insert(ArtifactKind::FinalOutput).remove(ArtifactKind::TempAudio).remove(
            ArtifactKind::TempWithoutAudio,
        )
    } else if probe.audio_present {
        fs.insert(ArtifactKind::FinalOutput).remove(ArtifactKind::TempAudio)
    } else {
        fs
    }
}

proof fn lemma_stage3_effect(fs: Set<ArtifactKind>, s: RecordingSession, probe: ArtifactProbe)
    ensures
        apply_actions(fs, stage3_actions(s, probe)) == apply_stage3(fs, s, probe),
{
    let ipc: Seq<StageAction> = if s.video_handle is Some {
        seq![StageAction::StopScreencastIpc]
    } else {
        Seq::<StageAction>::empty()
    };
    let worker: Seq<StageAction> = if s.video_handle is Some || s.worker_live {
        seq![StageAction::SignalWorkerStop]
    } else {
        Seq::<StageAction>::empty()
    };
    let files: Seq<StageAction> = if probe.video_present {
        seq![
            StageAction::Transcode {
                input: ArtifactKind::TempVideo,
                output: if probe.audio_present {
                    ArtifactKind::TempWithoutAudio
                } else {
                    ArtifactKind::FinalOutput
                },
            },
            StageAction::DeleteFile { name: ArtifactKind::TempVideo },
        ]
    } else {
        Seq::<StageAction>::empty()
    };
    if s.backend == BackendKind::Compositor {
        assert(stage3_actions(s, probe) == ipc + worker + files);
        lemma_apply_no_file(fs, ipc);
        lemma_apply_actions_concat(fs, ipc, worker);
        lemma_apply_no_file(fs, worker);
        lemma_apply_actions_concat(fs, ipc + worker, files);
        if probe.video_present {
            lemma_apply_two(fs, files[0], files[1]);
        } else {
            lemma_apply_no_file(fs, files);
        }
    } else {
        lemma_apply_no_file(fs, stage3_actions(s, probe));
    }
}

proof fn lemma_stage4_effect(fs: Set<ArtifactKind>, s: RecordingSession, probe: ArtifactProbe)
    ensures
        apply_actions(fs, stage4_actions(s, probe)) == apply_stage4(fs, s, probe),
{
    if s.backend == BackendKind::Direct && probe.video_present {
        let a = stage4_actions(s, probe);
        lemma_apply_one(fs, a[0]);
        assert(a =~= seq![a[0]]);
    } else {
        lemma_apply_no_file(fs, stage4_actions(s, probe));
    }
}

proof fn lemma_stage5_effect(fs: Set<ArtifactKind>, probe: ArtifactProbe)
    ensures
        apply_actions(fs, stage5_actions(probe)) == apply_stage5(fs, probe),
{
    let a = stage5_actions(probe);
    if probe.video_present && probe.audio_present {
        lemma_apply_three(fs, a[0], a[1], a[2]);
        assert(a =~= seq![a[0], a[1], a[2]]);
    } else if probe.audio_present {
        lemma_apply_two(fs, a[0], a[1]);
        assert(a =~= seq![a[0], a[1]]);
    } else {
        lemma_apply_no_file(fs, a);
    }
}

} // verus!
