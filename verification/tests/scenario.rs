use elastic_conn::Config;
use elastic_conn::ConnState;
use elastic_conn::Context;
use elastic_conn::Fsm;
use elastic_conn::Handle;
use elastic_conn::Head;
use elastic_conn::Message;
use elastic_conn::Method;
use elastic_conn::Notifier;
use elastic_conn::Queue;
use elastic_conn::ReqState;
use elastic_conn::RequestFsm;
use elastic_conn::Task;

/// Drive one buffered exchange to completion and hand the idle
/// connection machine back, recording which message it served.
fn complete_exchange(
    fsm: Fsm<Context>,
    rq: RequestFsm<Context>,
    cfg: &Config,
    served: &mut Vec<String>,
) -> Fsm<Context> {
    assert_eq!(fsm.state, ConnState::AwaitingResponse);
    let (rq, _out) = rq.prepare_request().ok().expect("scenario messages are well-formed");
    let rq = rq.request_sent();
    let (rq, _mode, _deadline) = rq
        .headers_received(&Head { status: 200 }, 0, cfg)
        .ok()
        .expect("the scenario response is well-formed");
    let rq = rq.response_received(b"{\"count\":1}");
    assert_eq!(rq.state, ReqState::Complete);
    served.push(rq.msg.url);
    fsm.exchange_done()
}

#[test]
fn three_producers_three_sequential_exchanges() {
    // m1, m2, m3 from three different producers, pushes linearized in
    // this order, one registered notifier.
    let mut handle = Handle::new(Queue::new());
    handle.add_listener(Notifier::new(1));
    let m1 = Message::new(Method::Post, String::from("/a/_percolate/count"), String::from("{}"), 1);
    let m2 = Message::new(Method::Post, String::from("/b/_percolate/count"), String::from("{}"), 2);
    let m3 = Message::new(Method::Post, String::from("/c/_percolate/count"), String::from("{}"), 3);
    handle.push(m1);
    handle.push(m2);
    handle.push(m3);
    assert!(handle.notifiers[0].pending);

    let cfg = Config {
        idle_timeout: 30_000,
        response_timeout: 5_000,
        stream_chunks: false,
        recv_limit: 1 << 20,
    };
    let mut fsm = Fsm::<Context>::create(cfg);
    assert_eq!(fsm.state, ConnState::Idle);

    // However many wakeups were coalesced, one signal makes the loop
    // re-poll; it then drains the queue one exchange at a time.
    let mut served: Vec<String> = Vec::new();
    let mut exchanges = 0;
    while handle.notifiers[0].pending || handle.queue.len() > 0 {
        let was_signalled = {
            let mut n = handle.notifiers[0];
            let was = n.consume();
            handle.notifiers[0] = n;
            was
        };
        assert!(was_signalled || handle.queue.len() > 0);
        loop {
            match fsm.wakeup(0, &mut handle.queue) {
                Task::Request(f, rq) => {
                    // No exchange starts before the previous one is done:
                    // the machine returned to Idle in between.
                    exchanges += 1;
                    fsm = complete_exchange(f, rq, &cfg, &mut served);
                    assert_eq!(fsm.state, ConnState::Idle);
                }
                Task::Sleep(f, _deadline) => {
                    fsm = f;
                    break;
                }
                Task::Close(_) => panic!("the connection must stay up in this scenario"),
            }
        }
    }

    assert_eq!(exchanges, 3);
    assert_eq!(
        served,
        vec!["/a/_percolate/count", "/b/_percolate/count", "/c/_percolate/count"]
    );
    assert_eq!(handle.queue.len(), 0);
}
