//! The generator end to end, against a kernel that is played by the test.

use std::time::Instant;

use rand_jitter_kernel::{
    FillProgress, JitterError, Negotiation, Progress, RandJitterKernel, Request,
};

/// A stand-in for the kernel: it hands out descriptors, counts what is open
/// and fills every transfer completely from a small generator of its own.
struct Kernel {
    next_descriptor: i32,
    open: Vec<i32>,
    transfers: usize,
    seed: u64,
}

impl Kernel {
    fn new() -> Kernel {
        Kernel { next_descriptor: 3, open: Vec::new(), transfers: 0, seed: 0x9E37_79B9_7F4A_7C15 }
    }

    fn descriptor(&mut self) -> i32 {
        let descriptor = self.next_descriptor;
        self.next_descriptor += 1;
        self.open.push(descriptor);
        descriptor
    }

    fn call(&mut self, request: &Request) -> i32 {
        match request {
            Request::Open { .. } => self.descriptor(),
            Request::Bind { endpoint, .. } => {
                assert!(self.open.contains(endpoint));
                0
            }
            Request::Accept { endpoint } => {
                assert!(self.open.contains(endpoint));
                self.descriptor()
            }
            Request::Close { endpoint } => {
                let before = self.open.len();
                self.open.retain(|d| d != endpoint);
                assert_eq!(self.open.len() + 1, before);
                0
            }
        }
    }

    fn read(&mut self, descriptor: i32, dst: &mut [u8]) -> isize {
        assert!(self.open.contains(&descriptor));
        assert!(dst.len() <= 128);
        self.transfers += 1;
        for byte in dst.iter_mut() {
            self.seed = self.seed.wrapping_mul(6364136223846793005).wrapping_add(1442695040888963407);
            *byte = (self.seed >> 56) as u8;
        }
        dst.len() as isize
    }
}

fn negotiate(kernel: &mut Kernel) -> Result<RandJitterKernel, JitterError> {
    let (mut state, mut request) = Negotiation::start();
    loop {
        let reply = kernel.call(&request);
        match state.advance(reply) {
            Progress::Pending { state: next, request: then } => {
                state = next;
                request = then;
            }
            Progress::Finished { outcome } => return outcome,
        }
    }
}

fn run(kernel: &mut Kernel, mut progress: FillProgress<'_>, dst: &mut [u8]) -> Result<(), JitterError> {
    loop {
        match progress {
            FillProgress::Finished { outcome } => return outcome,
            FillProgress::Pending { state } => {
                let transfer = state.transfer();
                let offset = state.offset();
                let got = kernel.read(transfer.descriptor, &mut dst[offset..offset + transfer.len]);
                progress = state.advance(got);
            }
        }
    }
}

fn fill(kernel: &mut Kernel, rng: &RandJitterKernel, dst: &mut [u8]) -> Result<(), JitterError> {
    run(kernel, rng.try_fill_bytes(dst.len()), dst)
}

fn fill_max_chunk(kernel: &mut Kernel, rng: &RandJitterKernel, dst: &mut [u8]) -> Result<(), JitterError> {
    let transfer = rng.try_fill_bytes_max_chunk_size(dst.len())?;
    let got = kernel.read(transfer.descriptor, dst);
    transfer.complete(got)
}

fn next_u64(kernel: &mut Kernel, rng: &RandJitterKernel) -> Result<u64, JitterError> {
    let mut bytes = [0u8; 8];
    run(kernel, rng.try_next_u64(), &mut bytes)?;
    Ok(RandJitterKernel::u64_from(bytes))
}

fn next_u32(kernel: &mut Kernel, rng: &RandJitterKernel) -> Result<u32, JitterError> {
    let mut bytes = [0u8; 8];
    run(kernel, rng.try_next_u32(), &mut bytes)?;
    Ok(RandJitterKernel::u32_from(bytes))
}

fn close(kernel: &mut Kernel, rng: &mut RandJitterKernel) {
    assert!(rng.is_open());
    let descriptor = rng.release();
    kernel.call(&Request::Close { endpoint: descriptor });
}

#[test]
fn test_u32() {
    let mut kernel = Kernel::new();
    let rng = negotiate(&mut kernel).unwrap();
    for _ in 0..1000 {
        let u = next_u32(&mut kernel, &rng);
        assert!(u.is_ok());
    }
}

#[test]
fn test_u64() {
    let mut kernel = Kernel::new();
    let rng = negotiate(&mut kernel).unwrap();
    for _ in 0..1000 {
        let u = next_u64(&mut kernel, &rng);
        assert!(u.is_ok());
    }
}

#[test]
fn test_speed() {
    let start = Instant::now();
    let mut num_bytes = 0usize;
    let mut kernel = Kernel::new();
    let rng = negotiate(&mut kernel).unwrap();

    loop {
        let mut b = [0u8; 32];
        fill(&mut kernel, &rng, &mut b).unwrap();

        let now = Instant::now();

        num_bytes += b.len();

        if (now - start).as_secs() > 2 {
            let datarate = num_bytes as f64 / (now - start).as_secs_f64() / 1024.0;
            println!("datarate: {datarate} KiB/s");
            break;
        }
    }
}

#[test]
fn test_bytes() {
    let mut kernel = Kernel::new();
    let rng = negotiate(&mut kernel).unwrap();

    for buffer_size in 0..=256 {
        let mut buffer = vec![0u8; buffer_size];
        assert!(fill(&mut kernel, &rng, &mut buffer).is_ok());
        println!("{buffer_size}: {buffer:#04X?}");
    }
}

#[test]
fn test_large_bytes_but_ok() {
    let mut kernel = Kernel::new();
    let rng = negotiate(&mut kernel).unwrap();
    let mut buffer = [0u8; 128];
    assert!(fill_max_chunk(&mut kernel, &rng, &mut buffer).is_ok());
}

#[test]
fn test_too_large_bytes() {
    let mut kernel = Kernel::new();
    let rng = negotiate(&mut kernel).unwrap();
    let mut buffer = [0u8; 129];
    assert!(fill_max_chunk(&mut kernel, &rng, &mut buffer).is_err());
}

#[test]
fn test_multi_instantiation() {
    let mut kernel = Kernel::new();
    for _ in 0..256 {
        let rng = negotiate(&mut kernel).unwrap();
        let u = next_u32(&mut kernel, &rng).unwrap();
        println!("Got {u}");
    }
}

#[test]
fn handles_are_independent() {
    let mut kernel = Kernel::new();
    let mut handles: Vec<RandJitterKernel> = Vec::new();
    for _ in 0..256 {
        handles.push(negotiate(&mut kernel).unwrap());
    }
    // Every endpoint was closed again; every instance is open and its own.
    assert_eq!(kernel.open.len(), 256);
    for (i, rng) in handles.iter().enumerate() {
        assert!(rng.is_open());
        assert!(kernel.open.contains(&rng.rng_fd()));
        for other in &handles[i + 1..] {
            assert_ne!(rng.rng_fd(), other.rng_fd());
        }
        assert!(next_u32(&mut kernel, rng).is_ok());
    }
}

#[test]
fn fill_writes_every_byte_of_every_length() {
    let mut kernel = Kernel::new();
    let rng = negotiate(&mut kernel).unwrap();
    for len in 0..=256usize {
        let before = kernel.transfers;
        let mut buffer = vec![0u8; len];
        let mut written = vec![false; len];
        let mut progress = rng.try_fill_bytes(len);
        let outcome = loop {
            match progress {
                FillProgress::Finished { outcome } => break outcome,
                FillProgress::Pending { state } => {
                    let transfer = state.transfer();
                    let offset = state.offset();
                    for mark in &mut written[offset..offset + transfer.len] {
                        assert!(!*mark);
                        *mark = true;
                    }
                    let got = kernel.read(transfer.descriptor, &mut buffer[offset..offset + transfer.len]);
                    progress = state.advance(got);
                }
            }
        };
        assert_eq!(outcome, Ok(()));
        assert!(written.iter().all(|mark| *mark));
        assert_eq!(kernel.transfers - before, (len + 127) / 128);
    }
}

#[test]
fn empty_fill_makes_no_transfer() {
    let mut kernel = Kernel::new();
    let mut rng = negotiate(&mut kernel).unwrap();
    let mut buffer = [0u8; 0];
    assert_eq!(fill(&mut kernel, &rng, &mut buffer), Ok(()));
    assert_eq!(kernel.transfers, 0);
    assert!(matches!(rng.try_fill_bytes(0), FillProgress::Finished { outcome: Ok(()) }));
    // Not even an open handle is needed for it.
    close(&mut kernel, &mut rng);
    assert!(matches!(rng.try_fill_bytes(0), FillProgress::Finished { outcome: Ok(()) }));
}

#[test]
fn single_chunk_at_and_above_the_limit() {
    let mut kernel = Kernel::new();
    let rng = negotiate(&mut kernel).unwrap();
    let mut at_limit = [0u8; 128];
    assert_eq!(fill_max_chunk(&mut kernel, &rng, &mut at_limit), Ok(()));
    assert_eq!(kernel.transfers, 1);
    let mut above = [0u8; 129];
    assert_eq!(
        fill_max_chunk(&mut kernel, &rng, &mut above),
        Err(JitterError::ChunkTooLarge { requested: 129 })
    );
    assert_eq!(kernel.transfers, 1);
    assert!(above.iter().all(|byte| *byte == 0));
}

#[test]
fn fill_then_fill_then_single_chunk() {
    let mut kernel = Kernel::new();
    let rng = negotiate(&mut kernel).unwrap();

    let mut first = [0u8; 128];
    assert_eq!(fill(&mut kernel, &rng, &mut first), Ok(()));
    assert_eq!(kernel.transfers, 1);

    let mut second = [0u8; 129];
    let mut chunks: Vec<(usize, usize)> = Vec::new();
    let mut progress = rng.try_fill_bytes(second.len());
    let outcome = loop {
        match progress {
            FillProgress::Finished { outcome } => break outcome,
            FillProgress::Pending { state } => {
                let transfer = state.transfer();
                let offset = state.offset();
                chunks.push((offset, transfer.len));
                let got = kernel.read(transfer.descriptor, &mut second[offset..offset + transfer.len]);
                progress = state.advance(got);
            }
        }
    };
    assert_eq!(outcome, Ok(()));
    assert_eq!(chunks, vec![(0, 128), (128, 1)]);

    let mut third = [0u8; 129];
    assert_eq!(
        fill_max_chunk(&mut kernel, &rng, &mut third),
        Err(JitterError::ChunkTooLarge { requested: 129 })
    );
}

#[test]
fn short_read_fails_the_whole_fill() {
    let mut kernel = Kernel::new();
    let rng = negotiate(&mut kernel).unwrap();
    let mut buffer = [0u8; 300];
    let mut asked = 0;
    let mut progress = rng.try_fill_bytes(buffer.len());
    let outcome = loop {
        match progress {
            FillProgress::Finished { outcome } => break outcome,
            FillProgress::Pending { state } => {
                let transfer = state.transfer();
                let offset = state.offset();
                asked += 1;
                let got = kernel.read(transfer.descriptor, &mut buffer[offset..offset + transfer.len]);
                // The second transfer comes back one byte short.
                progress = state.advance(if asked == 2 { got - 1 } else { got });
            }
        }
    };
    assert_eq!(outcome, Err(JitterError::TransferFailed));
    assert_eq!(asked, 2);
}

#[test]
fn read_error_fails_the_transfer() {
    let mut kernel = Kernel::new();
    let rng = negotiate(&mut kernel).unwrap();
    let transfer = rng.try_fill_bytes_max_chunk_size(16).unwrap();
    assert_eq!(transfer.complete(-1), Err(JitterError::TransferFailed));
    assert_eq!(transfer.complete(0), Err(JitterError::TransferFailed));
    assert_eq!(transfer.complete(15), Err(JitterError::TransferFailed));
    assert_eq!(transfer.complete(17), Err(JitterError::TransferFailed));
    assert_eq!(transfer.complete(isize::MIN), Err(JitterError::TransferFailed));
    assert_eq!(transfer.complete(isize::MAX), Err(JitterError::TransferFailed));
    assert_eq!(transfer.complete(16), Ok(()));
}

#[test]
fn release_closes_once_and_ends_reading() {
    let mut kernel = Kernel::new();
    let mut rng = negotiate(&mut kernel).unwrap();
    let descriptor = rng.rng_fd();
    assert!(descriptor >= 0);
    assert!(next_u64(&mut kernel, &rng).is_ok());

    close(&mut kernel, &mut rng);
    assert!(kernel.open.is_empty());
    assert!(!rng.is_open());
    assert_eq!(rng.rng_fd(), -1);
    assert_eq!(rng.rng_fd(), rand_jitter_kernel::CLOSED);

    assert_eq!(
        rng.try_fill_bytes_max_chunk_size(8).unwrap_err(),
        JitterError::HandleNotOpen { descriptor: -1 }
    );
    assert!(matches!(
        rng.try_fill_bytes(8),
        FillProgress::Finished { outcome: Err(JitterError::HandleNotOpen { descriptor: -1 }) }
    ));
    // The length is judged before the handle.
    assert_eq!(
        rng.try_fill_bytes_max_chunk_size(129).unwrap_err(),
        JitterError::ChunkTooLarge { requested: 129 }
    );
}

#[test]
fn words_are_the_bytes_in_native_order() {
    let mut kernel = Kernel::new();
    let rng = negotiate(&mut kernel).unwrap();
    let mut bytes = [0u8; 8];
    assert_eq!(run(&mut kernel, rng.try_next_u64(), &mut bytes), Ok(()));
    assert_eq!(kernel.transfers, 1);
    assert_ne!(bytes, [0u8; 8]);
    let word = RandJitterKernel::u64_from(bytes);
    assert_eq!(word, u64::from_ne_bytes(bytes));
    assert_eq!(word.to_ne_bytes(), bytes);
    assert_eq!(RandJitterKernel::u64_from(bytes), word);
    assert_eq!(RandJitterKernel::u32_from(bytes), (word & 0xFFFF_FFFF) as u32);
}
