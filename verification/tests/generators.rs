use loadbench::closed_loop_client::ClosedLoopWorker;
use loadbench::open_loop_client::{OpenLoopReceiver, OpenLoopSender, RecvEvent};
use loadbench::packet::{ClientWorkPacket, ServerWorkPacket, Work};
use loadbench::protocol::{ClientWorkPacketConn, ServerWorkPacketConn};

#[test]
fn latency_record_is_nonnegative() {
    let resp = ServerWorkPacket { send_ts: 100, processing_time: 5, result: 0 };
    let rec = resp.calculate_latency(150).expect("received after sending");
    assert_eq!(rec.latency, 50);
    assert!(rec.recv_ts >= rec.send_ts);
    assert_eq!(rec.send_ts, 100);
    assert_eq!(rec.server_processing_time, 5);
    assert_eq!(rec.recv_ts, 150);
}

#[test]
fn latency_record_refused_for_time_travel() {
    let resp = ServerWorkPacket { send_ts: 200, processing_time: 5, result: 0 };
    assert!(resp.calculate_latency(199).is_none());
}

#[test]
fn reply_embeds_the_request_send_timestamp() {
    let req = ClientWorkPacket::new(77, 4242, Work { param: 3 });
    let resp = req.reply(10, 123);
    assert_eq!(resp.send_ts, 4242);
    assert_eq!(resp.processing_time, 10);
    assert_eq!(resp.result, 123);
}

#[test]
fn closed_loop_worker_runs_until_its_deadline() {
    let worker = ClosedLoopWorker::new(1_000);
    assert!(worker.should_continue(1_000, 500));
    assert!(worker.should_continue(1_499, 500));
    assert!(!worker.should_continue(1_500, 500));
    assert!(!worker.should_continue(9_999, 500));
}

#[test]
fn closed_loop_worker_counts_attempts_and_samples() {
    let mut worker = ClosedLoopWorker::new(0);
    let req = worker.make_request(1_000, Work { param: 9 });
    assert_eq!(req.send_ts, 1_000);
    assert_eq!(req.work, Work { param: 9 });
    assert_eq!(worker.tracker.request_count, 1);

    let resp = req.reply(10, 0);
    worker.record_response(&resp, 1_025);
    assert_eq!(worker.latencies.len(), 1);
    assert_eq!(worker.latencies[0].latency, 25);
    assert_eq!(worker.latencies[0].server_processing_time, 10);

    // A response dated before its request is dropped, not recorded.
    let bogus = ServerWorkPacket { send_ts: 9_999, processing_time: 1, result: 0 };
    worker.record_response(&bogus, 2_000);
    assert_eq!(worker.latencies.len(), 1);
}

#[test]
fn closed_loop_scenario_over_a_loopback_channel() {
    // One closed-loop iteration through the framed channels, with a work
    // function that takes a fixed 10 microseconds: the sample records that
    // processing time and a latency at least as large.
    let work = Work { param: 10 };
    let mut worker = ClosedLoopWorker::new(0);
    let mut client_req_conn = ClientWorkPacketConn::new();
    let mut client_resp_conn = ServerWorkPacketConn::new();
    let mut server_req_conn = ClientWorkPacketConn::new();
    let mut server_resp_conn = ServerWorkPacketConn::new();

    let send_ts = 1_000;
    let req = worker.make_request(send_ts, work);
    client_req_conn.send_work_msg(req);

    let to_server = client_req_conn.take_outgoing();
    server_req_conn.feed_incoming(&to_server);
    let served = server_req_conn.recv_work_msg().expect("whole request delivered");
    assert_eq!(served, req);

    let resp = served.reply(10, 0);
    server_resp_conn.send_work_msg(resp);
    let to_client = server_resp_conn.take_outgoing();
    client_resp_conn.feed_incoming(&to_client);
    let got = client_resp_conn.recv_work_msg().expect("whole response delivered");

    let recv_ts = send_ts + 25;
    worker.record_response(&got, recv_ts);
    assert_eq!(worker.latencies.len(), 1);
    let rec = worker.latencies[0];
    assert_eq!(rec.server_processing_time, 10);
    assert!(rec.latency >= rec.server_processing_time);
    assert_eq!(rec.send_ts, send_ts);
}

#[test]
fn open_loop_sender_follows_its_schedule() {
    let mut s = OpenLoopSender::new(100, 10);
    assert!(!s.due(99));
    assert!(s.due(100));
    s.record_send();
    assert_eq!(s.sent, 1);
    assert_eq!(s.next_send, 110);
    assert!(!s.finished(105, 20));
    assert!(s.finished(120, 20));
}

#[test]
fn open_loop_pacing_two_connections() {
    // Two open-loop connections at a 1 ms interval for 2 seconds: the fixed
    // schedule places 2000 sends on each connection.
    let first = OpenLoopSender::run_schedule(0, 1_000, 2_000_000);
    let second = OpenLoopSender::run_schedule(500, 1_000, 2_000_000);
    assert_eq!(first.sent, 2_000);
    assert_eq!(second.sent, 2_000);
    assert_eq!(first.sent + second.sent, 4_000);
}

#[test]
fn open_loop_pacing_rounds_partial_intervals_up() {
    assert_eq!(OpenLoopSender::run_schedule(0, 1_000, 2_500).sent, 3);
    assert_eq!(OpenLoopSender::run_schedule(0, 1_000, 0).sent, 0);
}

#[test]
fn receiver_collects_and_stops_after_final_drain() {
    let mut r = OpenLoopReceiver::new();
    let resp = ServerWorkPacket { send_ts: 10, processing_time: 2, result: 0 };

    // Responses keep the drain going, before and after the sender finishes.
    assert!(r.step(RecvEvent::Response(resp, 30), false));
    assert!(r.step(RecvEvent::Response(resp, 40), true));
    assert_eq!(r.latencies.len(), 2);
    assert_eq!(r.latencies[0].latency, 20);
    assert_eq!(r.latencies[1].latency, 30);

    // A timeout only ends the drain once the sender has finished.
    assert!(r.step(RecvEvent::TimedOut, false));
    assert!(r.step(RecvEvent::Transient, true));
    assert!(!r.step(RecvEvent::TimedOut, true));
    assert_eq!(r.latencies.len(), 2);
}

#[test]
fn receiver_stops_at_once_on_fatal_error() {
    let mut r = OpenLoopReceiver::new();
    assert!(!r.step(RecvEvent::Fatal, false));
    assert!(r.latencies.is_empty());
}
