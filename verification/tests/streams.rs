use std::io::{Read, Write};

use wasi_harness::environment::{
    configure, CapabilitySet, EnvironmentBuilder, EnvironmentConfig, EnvironmentHandle, HostStreams,
    ThreadingPolicy,
};
use wasi_harness::report::captured;

fn environment() -> (tokio::runtime::Runtime, EnvironmentHandle, HostStreams) {
    let runtime = tokio::runtime::Builder::new_current_thread()
        .build()
        .expect("a runtime can be built");
    let capabilities = CapabilitySet {
        unrestricted: true,
        http_client: true,
        threading: ThreadingPolicy { max_threads: None },
    };
    let (builder, streams) = configure(capabilities, EnvironmentConfig::new());
    let finalized = match builder.with_task_manager(runtime.handle().clone()).finalize() {
        Ok(finalized) => finalized,
        Err(error) => panic!("a complete environment is refused: {:?}", error),
    };
    (runtime, finalized, streams)
}

fn drain(mut end: virtual_fs::Pipe) -> Vec<u8> {
    let mut bytes = Vec::new();
    end.read_to_end(&mut bytes).expect("a closed stream drains to its end");
    bytes
}

#[test]
fn draining_returns_what_the_guest_wrote_in_order() {
    let (_runtime, mut guest, host) = environment();
    guest.stdout.write_all(b"hel").expect("the guest end takes bytes");
    guest.stderr.write_all(b"warning: ").expect("the guest end takes bytes");
    guest.stdout.write_all(b"lo").expect("the guest end takes bytes");
    guest.stderr.write_all(b"late").expect("the guest end takes bytes");
    guest.stdout.write_all(b", world").expect("the guest end takes bytes");
    drop(guest);

    assert_eq!(drain(host.stdout), b"hello, world".to_vec());
    assert_eq!(drain(host.stderr), b"warning: late".to_vec());
}

#[test]
fn draining_an_empty_stream_reads_nothing() {
    let (_runtime, guest, host) = environment();
    drop(guest);
    let bytes = drain(host.stdout);
    assert_eq!(bytes.len(), 0);
    let text = String::from_utf8(bytes).expect("no bytes are text");
    assert_eq!(captured(text), None);
    assert_eq!(drain(host.stderr).len(), 0);
}

#[test]
fn the_host_end_of_the_input_stream_reaches_the_guest() {
    let (_runtime, guest, mut host) = environment();
    host.stdin.write_all(b"input").expect("the host end takes bytes");
    drop(host);
    assert_eq!(drain(guest.stdin), b"input".to_vec());
}

#[test]
fn two_environments_do_not_share_their_streams() {
    let (_first_runtime, mut first_guest, first_host) = environment();
    let (_second_runtime, mut second_guest, second_host) = environment();

    first_guest.stdout.write_all(b"first").expect("the guest end takes bytes");
    drop(first_guest);
    assert_eq!(drain(first_host.stdout), b"first".to_vec());
    assert_eq!(drain(first_host.stderr).len(), 0);

    second_guest.stderr.write_all(b"second").expect("the guest end takes bytes");
    drop(second_guest);
    assert_eq!(drain(second_host.stdout).len(), 0);
    assert_eq!(drain(second_host.stderr), b"second".to_vec());
}

#[test]
fn wired_gives_each_side_its_end_of_each_pair() {
    let runtime = tokio::runtime::Builder::new_current_thread()
        .build()
        .expect("a runtime can be built");
    let capabilities = CapabilitySet {
        unrestricted: false,
        http_client: false,
        threading: ThreadingPolicy { max_threads: Some(1) },
    };
    let (builder, mut host) = EnvironmentBuilder::wired(
        capabilities,
        EnvironmentConfig::new(),
        virtual_fs::Pipe::channel(),
        virtual_fs::Pipe::channel(),
        virtual_fs::Pipe::channel(),
    );
    let mut guest = match builder
        .named("guest".to_string())
        .with_task_manager(runtime.handle().clone())
        .finalize()
    {
        Ok(guest) => guest,
        Err(error) => panic!("a complete environment is refused: {:?}", error),
    };
    host.stdin.write_all(b"in").expect("the host end takes bytes");
    guest.stdout.write_all(b"out").expect("the guest end takes bytes");
    guest.stderr.write_all(b"err").expect("the guest end takes bytes");
    let HostStreams { stdin, stdout, stderr } = host;
    let EnvironmentHandle { stdin: guest_stdin, stdout: guest_stdout, stderr: guest_stderr, .. } =
        guest;
    drop(stdin);
    drop(guest_stdout);
    drop(guest_stderr);
    assert_eq!(drain(guest_stdin), b"in".to_vec());
    assert_eq!(drain(stdout), b"out".to_vec());
    assert_eq!(drain(stderr), b"err".to_vec());
}
