use net_manthan::conversion::{
    convert_from_download_status_proto, convert_from_duration_proto, convert_from_timestamp_proto,
    convert_to_download_status_proto, convert_to_duration_proto, convert_to_timestamp_proto,
    duration_parts, timestamp_proto_from_nanos, DownloadStatusProto, DurationProto, TimestampProto,
};
use net_manthan::download::DownloadStatus;
use net_manthan::rpc::messages::UtcTime;

#[test]
fn timestamps_keep_nanos_non_negative() {
    assert_eq!(timestamp_proto_from_nanos(-1), TimestampProto { seconds: -1, nanos: 999_999_999 });
    assert_eq!(
        timestamp_proto_from_nanos(2_500_000_000),
        TimestampProto { seconds: 2, nanos: 500_000_000 }
    );
    assert_eq!(
        convert_to_timestamp_proto(&UtcTime { seconds: 1_700_000_000, nanos: 42 }),
        TimestampProto { seconds: 1_700_000_000, nanos: 42 }
    );
}

#[test]
fn timestamps_round_trip() {
    let t = UtcTime { seconds: 1_431_648_000, nanos: 123 };
    assert_eq!(convert_from_timestamp_proto(convert_to_timestamp_proto(&t)), t);
    // the earliest moment whose nanoseconds fit in an i64
    let earliest = UtcTime { seconds: -9_223_372_037, nanos: 145_224_192 };
    assert_eq!(
        convert_to_timestamp_proto(&earliest),
        TimestampProto { seconds: -9_223_372_037, nanos: 145_224_192 }
    );
    assert_eq!(convert_from_timestamp_proto(convert_to_timestamp_proto(&earliest)), earliest);
    let before_epoch = UtcTime { seconds: -5, nanos: 7 };
    assert_eq!(convert_from_timestamp_proto(convert_to_timestamp_proto(&before_epoch)), before_epoch);
}

#[test]
fn invalid_timestamps_fall_back_to_the_epoch() {
    let epoch = UtcTime { seconds: 0, nanos: 0 };
    assert_eq!(convert_from_timestamp_proto(TimestampProto { seconds: 10, nanos: -1 }), epoch);
    assert_eq!(convert_from_timestamp_proto(TimestampProto { seconds: i64::MAX, nanos: 0 }), epoch);
}

#[test]
fn durations_share_one_sign() {
    assert_eq!(convert_to_duration_proto(1_500_000_000), DurationProto { seconds: 1, nanos: 500_000_000 });
    assert_eq!(
        convert_to_duration_proto(-1_500_000_000),
        DurationProto { seconds: -1, nanos: -500_000_000 }
    );
    assert_eq!(convert_to_duration_proto(-7), DurationProto { seconds: 0, nanos: -7 });
    assert_eq!(convert_to_duration_proto(0), DurationProto { seconds: 0, nanos: 0 });
}

#[test]
fn negative_duration_parts_count_as_zero() {
    assert_eq!(duration_parts(&DurationProto { seconds: -3, nanos: 5 }), (0, 5));
    assert_eq!(duration_parts(&DurationProto { seconds: 2, nanos: -1 }), (2, 0));
    assert_eq!(
        convert_from_duration_proto(DurationProto { seconds: 2, nanos: 250 }),
        chrono::TimeDelta::seconds(2) + chrono::TimeDelta::nanoseconds(250)
    );
    assert_eq!(
        convert_from_duration_proto(DurationProto { seconds: -9, nanos: -9 }),
        chrono::TimeDelta::zero()
    );
}

#[test]
fn statuses_round_trip() {
    let all = [
        DownloadStatus::Created,
        DownloadStatus::Queued,
        DownloadStatus::Connecting,
        DownloadStatus::Retrying,
        DownloadStatus::Downloading,
        DownloadStatus::Paused,
        DownloadStatus::Complete,
        DownloadStatus::Failed,
        DownloadStatus::Cancelled,
    ];
    for s in all {
        assert_eq!(convert_from_download_status_proto(&convert_to_download_status_proto(&s)), s);
    }
    assert_eq!(
        convert_to_download_status_proto(&DownloadStatus::Paused),
        DownloadStatusProto::Paused
    );
    assert_eq!(
        convert_from_download_status_proto(&DownloadStatusProto::StatusUnspecified),
        DownloadStatus::Created
    );
}
