use shiguredo_http3::webtransport::session::{MAX_BUFFERED_DATAGRAMS, MAX_BUFFERED_STREAMS};
use shiguredo_http3::webtransport::MAX_STREAMS_LIMIT;
use shiguredo_http3::webtransport::{
    Capsule, CapsuleProcessError, Error, ErrorCode, FlowControlLimits, Session, SessionState, Stream,
};

#[test]
fn test_session_creation() {
    let session = Session::new(0);
    assert_eq!(session.session_id(), 0);
    assert_eq!(session.state(), SessionState::Pending);
    assert!(!session.is_established());
    assert!(!session.is_closed());
}

#[test]
fn test_session_state_transitions() {
    let mut session = Session::new(0);

    session.set_connecting();
    assert_eq!(session.state(), SessionState::Connecting);

    session.set_established();
    assert_eq!(session.state(), SessionState::Established);
    assert!(session.is_established());

    session.set_draining();
    assert_eq!(session.state(), SessionState::Draining);

    session.close(None);
    assert_eq!(session.state(), SessionState::Closed);
    assert!(session.is_closed());
}

#[test]
fn test_session_state_can_create_stream() {
    assert!(!SessionState::Pending.can_create_stream());
    assert!(!SessionState::Connecting.can_create_stream());
    assert!(SessionState::Established.can_create_stream());
    assert!(SessionState::Draining.can_create_stream());
    assert!(!SessionState::Closed.can_create_stream());
}

#[test]
fn test_session_stream_management() {
    let mut session = Session::new(0);

    let stream = Stream::new(4, 0, true);
    session.add_stream(stream);

    assert_eq!(session.stream_count(), 1);
    assert!(session.get_stream(4).is_some());

    let removed = session.remove_stream(4);
    assert!(removed.is_some());
    assert_eq!(session.stream_count(), 0);
}

#[test]
fn test_session_flow_control() {
    let mut session = Session::new(0);
    session.set_established();
    session.remote_limits_mut().max_streams_uni = 10;
    session.remote_limits_mut().max_streams_bidi = 5;
    session.remote_limits_mut().max_data = 1024;

    assert!(session.can_create_unidirectional_stream());
    assert!(session.can_create_bidirectional_stream());
    assert!(session.can_send_data(512));
    assert!(session.can_send_data(1024));
    assert!(!session.can_send_data(1025));
}

#[test]
fn test_session_capsule_queue() {
    let mut session = Session::new(0);

    session.queue_capsule(Capsule::DrainSession);
    assert_eq!(session.pending_capsules().len(), 1);

    let capsules = session.take_pending_capsules();
    assert_eq!(capsules.len(), 1);
    assert!(session.pending_capsules().is_empty());
}

#[test]
fn test_session_process_max_data() {
    let mut session = Session::new(0);
    session.set_flow_control_enabled(true);

    // 増加は OK
    session
        .process_capsule(&Capsule::MaxData { maximum: 1000 })
        .expect("test must succeed");
    assert_eq!(session.remote_limits().max_data, 1000);

    // 減少はエラー
    let result = session.process_capsule(&Capsule::MaxData { maximum: 500 });
    assert!(result.is_err());
}

#[test]
fn test_session_process_max_streams() {
    let mut session = Session::new(0);
    session.set_flow_control_enabled(true);

    // 双方向ストリーム
    session
        .process_capsule(&Capsule::MaxStreams {
            bidirectional: true,
            maximum: 100,
        })
        .expect("test must succeed");
    assert_eq!(session.remote_limits().max_streams_bidi, 100);

    // 単方向ストリーム
    session
        .process_capsule(&Capsule::MaxStreams {
            bidirectional: false,
            maximum: 50,
        })
        .expect("test must succeed");
    assert_eq!(session.remote_limits().max_streams_uni, 50);
}

#[test]
fn test_session_close_with_error() {
    let mut session = Session::new(0);
    session.set_established();

    session.close_with_error(42, "test error");

    assert!(session.is_closed());
    assert_eq!(session.pending_capsules().len(), 1);
}

#[test]
fn test_session_close_with_error_on_closed_session() {
    // クローズ済みセッションで close_with_error を呼んでも
    // close_session_sent フラグが誤設定されないことを確認する
    let mut session = Session::new(0);
    session.set_established();

    // ピアからの CloseSession を先に処理してセッションをクローズする
    session
        .process_capsule(&Capsule::CloseSession {
            error_code: 1,
            message: "peer closed".to_string(),
        })
        .expect("CloseSession capsule should be accepted");
    assert!(session.is_closed());
    assert!(!session.is_close_session_sent());

    // クローズ済みセッションに対して close_with_error を呼ぶ
    session.close_with_error(42, "local close");

    // close_session_sent が false のまま (カプセルは送信されていない)
    assert!(!session.is_close_session_sent());
    // 送信キューにカプセルが追加されていない
    assert!(session.pending_capsules().is_empty());
}

#[test]
fn test_session_process_flow_control_capsule_ignored_when_disabled() {
    let mut session = Session::new(0);
    session.set_flow_control_enabled(false);

    session
        .process_capsule(&Capsule::MaxData { maximum: 1000 })
        .expect("test must succeed");

    // 無効時は無視される
    assert_eq!(session.remote_limits().max_data, 0);
}

#[test]
fn test_session_process_prohibited_capsule_returns_error() {
    let mut session = Session::new(0);
    // WT_MAX_STREAM_DATA (0x190B4D3E) は禁止 Capsule
    let result = session.process_capsule(&Capsule::Unknown {
        capsule_type: 0x190B4D3E,
        payload: vec![],
    });
    // 禁止 Capsule はセッションエラー
    // (draft-ietf-webtrans-http3-15 Section 5.4)
    assert_eq!(
        result,
        Err(CapsuleProcessError::Session(Error::application(
            0,
            "prohibited capsule received"
        )))
    );
}

#[test]
fn test_session_process_prohibited_capsule_stream_data_blocked() {
    let mut session = Session::new(0);
    // WT_STREAM_DATA_BLOCKED (0x190B4D42) も禁止 Capsule
    let result = session.process_capsule(&Capsule::Unknown {
        capsule_type: 0x190B4D42,
        payload: vec![],
    });
    // 禁止 Capsule はセッションエラー
    // (draft-ietf-webtrans-http3-15 Section 5.4)
    assert_eq!(
        result,
        Err(CapsuleProcessError::Session(Error::application(
            0,
            "prohibited capsule received"
        )))
    );
}

#[test]
fn test_session_drain() {
    let mut session = Session::new(0);
    session.set_established();

    session.drain();

    assert_eq!(session.state(), SessionState::Draining);
    assert_eq!(session.pending_capsules().len(), 1);
}

#[test]
fn test_session_buffer_incoming_stream() {
    let mut session = Session::new(0);

    // 正常なバッファリング
    assert!(session.buffer_incoming_stream(4, true));
    assert!(session.buffer_incoming_stream(8, false));

    let streams = session.take_buffered_streams();
    assert_eq!(streams.len(), 2);
    assert_eq!(streams[0].stream_id, 4);
    assert!(streams[0].is_bidirectional);
    assert_eq!(streams[1].stream_id, 8);
    assert!(!streams[1].is_bidirectional);

    // take 後は空になる
    let streams = session.take_buffered_streams();
    assert!(streams.is_empty());
}

#[test]
fn test_session_buffer_stream_limit() {
    let mut session = Session::new(0);

    // MAX_BUFFERED_STREAMS まではバッファ可能
    for i in 0..MAX_BUFFERED_STREAMS {
        assert!(session.buffer_incoming_stream(i as u64 * 4, false));
    }

    // 超過した場合は false (RESET_STREAM with WT_BUFFERED_STREAM_REJECTED を送る)
    assert!(!session.buffer_incoming_stream(99999, false));
}

#[test]
fn test_session_buffer_datagram() {
    let mut session = Session::new(0);

    assert!(session.buffer_datagram(vec![1, 2, 3]));
    assert!(session.buffer_datagram(vec![4, 5, 6]));

    let datagrams = session.take_buffered_datagrams();
    assert_eq!(datagrams.len(), 2);
    assert_eq!(datagrams[0], vec![1, 2, 3]);
    assert_eq!(datagrams[1], vec![4, 5, 6]);

    // take 後は空になる
    assert!(session.take_buffered_datagrams().is_empty());
}

#[test]
fn test_session_buffer_datagram_limit() {
    let mut session = Session::new(0);

    // MAX_BUFFERED_DATAGRAMS まではバッファ可能
    for _ in 0..MAX_BUFFERED_DATAGRAMS {
        assert!(session.buffer_datagram(vec![0]));
    }

    // 超過した場合は false (datagram を破棄する)
    assert!(!session.buffer_datagram(vec![0xff]));
}

#[test]
fn test_session_handle_goaway() {
    let mut session = Session::new(0);
    session.set_established();

    assert!(!session.is_goaway_received());

    session.handle_goaway();

    assert!(session.is_goaway_received());
    assert_eq!(session.state(), SessionState::Draining);
}

#[test]
fn test_session_close_session_tracking() {
    let mut session = Session::new(0);
    session.set_established();

    assert!(!session.is_close_session_sent());
    assert!(!session.is_close_session_received());

    // WT_CLOSE_SESSION 送信
    session.close_with_error(42, "bye");
    assert!(session.is_close_session_sent());
    assert!(!session.is_close_session_received());
}

#[test]
fn test_session_process_close_session_capsule() {
    let mut session = Session::new(0);
    session.set_established();

    assert!(!session.is_close_session_received());

    session
        .process_capsule(&Capsule::CloseSession {
            error_code: 0,
            message: String::new(),
        })
        .expect("test must succeed");

    assert!(session.is_close_session_received());
    assert!(session.is_closed());
}

#[test]
fn test_session_on_connect_stream_closed() {
    let mut session = Session::new(0);
    session.set_established();

    assert!(!session.is_close_session_received());

    session.on_connect_stream_closed();

    assert!(session.is_close_session_received());
    assert!(session.is_closed());
}

#[test]
fn test_session_on_connect_stream_closed_idempotent() {
    let mut session = Session::new(0);
    session.set_established();

    // WT_CLOSE_SESSION 受信後はセッションが閉じている
    session
        .process_capsule(&Capsule::CloseSession {
            error_code: 1,
            message: "error".to_string(),
        })
        .expect("test must succeed");
    assert!(session.is_close_session_received());

    // CONNECT ストリームが再度クローズされても既に受信済みフラグは変わらない
    session.on_connect_stream_closed();
    assert!(session.is_close_session_received());
}

#[test]
fn test_session_stream_ids_to_reset() {
    let mut session = Session::new(0);
    session.set_established();

    session.add_stream(Stream::new(4, 0, true));
    session.add_stream(Stream::new(8, 0, false));

    let mut ids = session.stream_ids_to_reset();
    ids.sort();
    assert_eq!(ids, vec![4, 8]);
}

#[test]
fn test_session_take_pending_stream_resets_on_close() {
    let mut session = Session::new(0);
    session.set_established();
    session.add_stream(Stream::new(4, 0, true));
    session.add_stream(Stream::new(8, 0, false));

    session.close(None);

    let mut ids = session.take_pending_stream_resets();
    ids.sort();
    assert_eq!(ids, vec![4, 8]);
    assert!(session.take_pending_stream_resets().is_empty());
}

#[test]
fn test_session_try_add_stream_rejects_after_close() {
    let mut session = Session::new(0);
    session.close(None);
    assert!(!session.try_add_stream(Stream::new(4, 0, true)));
    assert_eq!(session.stream_count(), 0);
}

#[test]
fn test_process_capsule_max_streams_exceeds_limit() {
    let mut session = Session::new(0);
    session.set_established();

    // 2^60 を超える WT_MAX_STREAMS はセッションエラー
    // (draft-16 Section 5.6.2)
    let result = session.process_capsule(&Capsule::MaxStreams {
        bidirectional: true,
        maximum: (1u64 << 60) + 1,
    });
    assert!(matches!(
        result,
        Err(CapsuleProcessError::Session(Error::Protocol(
            ErrorCode::FlowControlError
        )))
    ));
}

#[test]
fn test_process_capsule_max_streams_at_limit() {
    let mut session = Session::new(0);
    session.set_established();

    // 2^60 はちょうど許容
    let result = session.process_capsule(&Capsule::MaxStreams {
        bidirectional: true,
        maximum: 1u64 << 60,
    });
    assert!(result.is_ok());
}

#[test]
fn test_process_capsule_max_streams_decreased() {
    let mut session = Session::new(0);
    session.set_established();

    session
        .process_capsule(&Capsule::MaxStreams {
            bidirectional: false,
            maximum: 10,
        })
        .expect("test must succeed");

    // 値が減少した場合はセッションエラー
    let result = session.process_capsule(&Capsule::MaxStreams {
        bidirectional: false,
        maximum: 5,
    });
    assert!(matches!(result, Err(CapsuleProcessError::Session(_))));
}

#[test]
fn test_check_received_data() {
    let mut session = Session::new(0);
    session.set_established();
    session.initialize_local_limits(FlowControlLimits {
        max_data: 100,
        ..FlowControlLimits::default()
    });

    assert!(session.check_received_data(50));
    session.add_received_data(50);
    assert!(session.check_received_data(50));
    assert!(!session.check_received_data(51));
}

#[test]
fn test_check_received_stream() {
    let mut session = Session::new(0);
    session.set_established();
    session.initialize_local_limits(FlowControlLimits {
        max_streams_uni: 2,
        ..FlowControlLimits::default()
    });

    assert!(session.check_received_stream(false));
    session.add_received_stream(false);
    assert!(session.check_received_stream(false));
    session.add_received_stream(false);
    assert!(!session.check_received_stream(false));
}

#[test]
fn test_received_datagram_counter() {
    let mut session = Session::new(0);
    assert_eq!(session.flow_state().datagrams_received, 0);
    session.add_received_datagram();
    session.add_received_datagram();
    assert_eq!(session.flow_state().datagrams_received, 2);
}

#[test]
fn test_initialize_local_limits() {
    let mut session = Session::new(0);
    session.initialize_local_limits(FlowControlLimits {
        max_streams_uni: 100,
        max_streams_bidi: 50,
        max_data: 1024,
    });

    assert_eq!(session.local_limits().max_streams_uni, 100);
    assert_eq!(session.local_limits().max_streams_bidi, 50);
    assert_eq!(session.local_limits().max_data, 1024);

    // check_received_stream は initialize_local_limits で設定した上限に従う
    assert!(session.check_received_stream(false));
    assert!(session.check_received_stream(true));
}

#[test]
fn test_on_remote_stream_closed_generates_max_streams() {
    let mut session = Session::new(0);
    session.set_established();
    session.initialize_local_limits(FlowControlLimits {
        max_streams_uni: 4,
        ..FlowControlLimits::default()
    });

    // 4 本開いて 3 本閉じる (残りウィンドウ 0 < しきい値 2)
    for _ in 0..4 {
        session.add_received_stream(false);
    }
    // 最初の 2 本を閉じてもまだしきい値以下ではない場合がある
    session.on_remote_stream_closed(false);
    session.on_remote_stream_closed(false);
    // 3 本目を閉じた時点で残りウィンドウ = 0 < threshold = 2
    session.on_remote_stream_closed(false);

    let capsules = session.take_pending_capsules();
    // WT_MAX_STREAMS カプセルが生成されているはず
    let max_streams_capsules: Vec<_> = capsules
        .iter()
        .filter(|c| {
            matches!(
                c,
                Capsule::MaxStreams {
                    bidirectional: false,
                    ..
                }
            )
        })
        .collect();
    assert!(
        !max_streams_capsules.is_empty(),
        "WT_MAX_STREAMS capsule should be generated"
    );

    // advertised_max は増加している
    for c in &max_streams_capsules {
        if let Capsule::MaxStreams { maximum, .. } = c {
            assert!(*maximum > 4, "new max should be greater than initial");
        }
    }
}

#[test]
fn test_on_remote_stream_closed_no_op_when_disabled() {
    let mut session = Session::new(0);
    session.set_established();
    session.set_flow_control_enabled(false);
    session.initialize_local_limits(FlowControlLimits {
        max_streams_uni: 4,
        ..FlowControlLimits::default()
    });

    for _ in 0..4 {
        session.add_received_stream(false);
    }
    for _ in 0..4 {
        session.on_remote_stream_closed(false);
    }

    assert!(session.take_pending_capsules().is_empty());
}

#[test]
fn test_on_remote_stream_closed_no_op_when_closed() {
    let mut session = Session::new(0);
    session.set_established();
    session.initialize_local_limits(FlowControlLimits {
        max_streams_uni: 4,
        ..FlowControlLimits::default()
    });
    session.close(None);

    for _ in 0..4 {
        session.on_remote_stream_closed(false);
    }

    assert!(session.take_pending_capsules().is_empty());
}

#[test]
fn test_try_open_stream_success() {
    let mut session = Session::new(0);
    session.set_established();
    session.remote_limits_mut().max_streams_uni = 3;

    assert!(session.try_open_stream(false));
    assert!(session.try_open_stream(false));
    assert!(session.try_open_stream(false));
    assert!(!session.try_open_stream(false));

    assert_eq!(session.flow_state().streams_uni_opened, 3);
}

#[test]
fn test_try_open_stream_blocked_dedup() {
    let mut session = Session::new(0);
    session.set_established();
    session.remote_limits_mut().max_streams_uni = 0;

    // 1 回目のブロックで STREAMS_BLOCKED が生成される
    assert!(!session.try_open_stream(false));
    // 2 回目は同じ maximum なので重複送信しない
    assert!(!session.try_open_stream(false));

    let capsules = session.take_pending_capsules();
    let blocked_count = capsules
        .iter()
        .filter(|c| matches!(c, Capsule::StreamsBlocked { .. }))
        .count();
    assert_eq!(
        blocked_count, 1,
        "STREAMS_BLOCKED should be sent only once per maximum"
    );
}

#[test]
fn test_try_open_stream_blocked_reset_after_max_streams() {
    let mut session = Session::new(0);
    session.set_established();
    session.remote_limits_mut().max_streams_bidi = 1;

    // 1 本開ける
    assert!(session.try_open_stream(true));
    // ブロック → STREAMS_BLOCKED 生成
    assert!(!session.try_open_stream(true));

    // ピアから新しい WT_MAX_STREAMS を受信
    session
        .process_capsule(&Capsule::MaxStreams {
            bidirectional: true,
            maximum: 2,
        })
        .expect("test must succeed");

    // もう 1 本開ける
    assert!(session.try_open_stream(true));
    // 再度ブロック → 新しい STREAMS_BLOCKED が生成される
    assert!(!session.try_open_stream(true));

    let capsules = session.take_pending_capsules();
    let blocked_count = capsules
        .iter()
        .filter(|c| matches!(c, Capsule::StreamsBlocked { .. }))
        .count();
    assert_eq!(
        blocked_count, 2,
        "STREAMS_BLOCKED should be sent again after new MAX_STREAMS"
    );
}

#[test]
fn test_try_send_data_success() {
    let mut session = Session::new(0);
    session.set_established();
    session.remote_limits_mut().max_data = 100;

    assert!(session.try_send_data(50));
    assert!(session.try_send_data(50));
    assert!(!session.try_send_data(1));

    assert_eq!(session.flow_state().data_sent, 100);
}

#[test]
fn test_try_send_data_blocked_dedup() {
    let mut session = Session::new(0);
    session.set_established();
    session.remote_limits_mut().max_data = 0;

    assert!(!session.try_send_data(1));
    assert!(!session.try_send_data(1));

    let capsules = session.take_pending_capsules();
    let blocked_count = capsules
        .iter()
        .filter(|c| matches!(c, Capsule::DataBlocked { .. }))
        .count();
    assert_eq!(
        blocked_count, 1,
        "DATA_BLOCKED should be sent only once per maximum"
    );
}

#[test]
fn test_on_data_consumed_generates_max_data() {
    let mut session = Session::new(0);
    session.set_established();
    session.initialize_local_limits(FlowControlLimits {
        max_data: 100,
        ..FlowControlLimits::default()
    });

    // 100 バイト受信して 80 バイト消費 → 残りウィンドウ = 20 < threshold = 50
    session.add_received_data(100);
    session.on_data_consumed(80);

    let capsules = session.take_pending_capsules();
    let max_data_capsules: Vec<_> = capsules
        .iter()
        .filter(|c| matches!(c, Capsule::MaxData { .. }))
        .collect();
    assert!(
        !max_data_capsules.is_empty(),
        "WT_MAX_DATA capsule should be generated"
    );

    // 新しい max_data は増加している
    for c in &max_data_capsules {
        if let Capsule::MaxData { maximum } = c {
            assert!(
                *maximum > 100,
                "new max_data should be greater than initial"
            );
        }
    }
}

#[test]
fn test_on_data_consumed_no_op_when_disabled() {
    let mut session = Session::new(0);
    session.set_established();
    session.set_flow_control_enabled(false);
    session.initialize_local_limits(FlowControlLimits {
        max_data: 100,
        ..FlowControlLimits::default()
    });

    session.add_received_data(100);
    session.on_data_consumed(80);

    assert!(session.take_pending_capsules().is_empty());
}

#[test]
fn test_advertised_max_does_not_exceed_limit() {
    let mut session = Session::new(0);
    session.set_established();
    // MAX_STREAMS_LIMIT に近い値で初期化
    session.initialize_local_limits(FlowControlLimits {
        max_streams_uni: MAX_STREAMS_LIMIT,
        ..FlowControlLimits::default()
    });

    // 上限まで受信して全部閉じる
    for _ in 0..10 {
        session.add_received_stream(false);
    }
    for _ in 0..10 {
        session.on_remote_stream_closed(false);
    }

    // 生成されたカプセルの maximum が MAX_STREAMS_LIMIT を超えないこと
    for capsule in session.take_pending_capsules() {
        if let Capsule::MaxStreams { maximum, .. } = capsule {
            assert!(maximum <= MAX_STREAMS_LIMIT);
        }
    }
}

#[test]
fn test_queue_initial_flow_control_capsules() {
    let mut session = Session::new(0);
    session.set_established();

    let limits = FlowControlLimits {
        max_streams_bidi: 100,
        max_streams_uni: 50,
        max_data: 8 * 1024 * 1024,
    };
    session.queue_initial_flow_control_capsules(limits);

    // local_limits が更新されること
    assert_eq!(session.local_limits().max_streams_bidi, 100);
    assert_eq!(session.local_limits().max_streams_uni, 50);
    assert_eq!(session.local_limits().max_data, 8 * 1024 * 1024);

    // 3 つのカプセルが生成されること
    let capsules = session.take_pending_capsules();
    assert_eq!(capsules.len(), 3);
    assert_eq!(
        capsules[0],
        Capsule::MaxStreams {
            bidirectional: true,
            maximum: 100
        }
    );
    assert_eq!(
        capsules[1],
        Capsule::MaxStreams {
            bidirectional: false,
            maximum: 50
        }
    );
    assert_eq!(capsules[2], Capsule::MaxData { maximum: 8388608 });
}

#[test]
fn test_queue_initial_flow_control_capsules_zero_values() {
    let mut session = Session::new(0);
    session.set_established();

    let limits = FlowControlLimits {
        max_streams_bidi: 0,
        max_streams_uni: 0,
        max_data: 0,
    };
    session.queue_initial_flow_control_capsules(limits);

    // 0 値ではカプセルが生成されないこと
    assert!(session.take_pending_capsules().is_empty());
}
