use labworks::crypt::{encrypt_content, encrypted_file_name, new_key, seal_with_nonce};
use labworks::imaging::{cpu_process, is_remote, parse_size, resize_fits_in_memory, AppError};
use labworks::matrix::{generate_matrix, parallel_sum, SIZE};
use labworks::plans::{build_runtime_plan, build_uploader_plan, output_dir, RuntimePlan, UploaderPlan};

#[test]
fn image_args_and_sources() {
    assert_eq!(parse_size("10x20"), Ok((10, 20)));
    let e = parse_size("10").unwrap_err();
    assert_eq!(e.message(), "size format: expected WIDTHxHEIGHT");
    assert!(is_remote("http://a"));
    assert!(is_remote("https://a"));
    assert!(!is_remote("ftp://a"));
    assert!(!is_remote("/tmp/http://"));
}

#[test]
fn cpu_process_rejects_garbage_and_scales_png() {
    assert!(matches!(cpu_process(vec![1, 2, 3], 2, 2, false), Err(AppError::Image(_)) | Err(AppError::Io(_))));
    // A 1x1 PNG image.
    let png: Vec<u8> = vec![
        0x89, 0x50, 0x4E, 0x47, 0x0D, 0x0A, 0x1A, 0x0A, 0x00, 0x00, 0x00, 0x0D, 0x49, 0x48, 0x44, 0x52,
        0x00, 0x00, 0x00, 0x01, 0x00, 0x00, 0x00, 0x01, 0x08, 0x06, 0x00, 0x00, 0x00, 0x1F, 0x15, 0xC4,
        0x89, 0x00, 0x00, 0x00, 0x0D, 0x49, 0x44, 0x41, 0x54, 0x78, 0x9C, 0x63, 0xF8, 0xCF, 0xC0, 0xF0,
        0x1F, 0x00, 0x05, 0x00, 0x01, 0xFF, 0x89, 0x99, 0x3D, 0x1D, 0x00, 0x00, 0x00, 0x00, 0x49, 0x45,
        0x4E, 0x44, 0xAE, 0x42, 0x60, 0x82,
    ];
    let out = cpu_process(png.clone(), 3, 2, false).unwrap();
    assert_eq!(&out[..8], &[0x89, 0x50, 0x4E, 0x47, 0x0D, 0x0A, 0x1A, 0x0A]);
    // width and height fields of the IHDR chunk
    assert_eq!(&out[16..24], &[0, 0, 0, 3, 0, 0, 0, 2]);
    // Fitting 1x1 into 3x2 keeps the square: 2x2.
    let fitted = cpu_process(png.clone(), 3, 2, true).unwrap();
    assert_eq!(&fitted[16..24], &[0, 0, 0, 2, 0, 0, 0, 2]);
    let tall = cpu_process(png, 2, 3, false).unwrap();
    assert_eq!(&tall[16..24], &[0, 0, 0, 2, 0, 0, 0, 3]);
}

#[test]
fn resize_sizes_within_memory() {
    assert!(resize_fits_in_memory(4096, 4096));
    assert!(resize_fits_in_memory(0, 0));
    assert!(!resize_fits_in_memory(u32::MAX, u32::MAX));
}

#[test]
fn matrix_sum() {
    let m = vec![vec![1u32, 2, 3], vec![], vec![u32::MAX, 1]];
    assert_eq!(parallel_sum(&m), 6 + u32::MAX as u64 + 1);
}

#[test]
fn encryption_framing() {
    let key = [7u8; 32];
    let nonce = [1u8; 12];
    let out = seal_with_nonce(&key, nonce, b"secret").unwrap();
    assert_eq!(out.len(), 12 + 6 + 16);
    assert_eq!(&out[..12], &nonce);
    assert_ne!(&out[12..18], b"secret");
    let again = seal_with_nonce(&key, nonce, b"secret").unwrap();
    assert_eq!(out, again);
    let k = new_key();
    let r = encrypt_content(&k, b"abc").unwrap();
    assert_eq!(r.len(), 12 + 3 + 16);
    assert_eq!(encrypted_file_name("notes.txt"), "notes.txt.data");
}

#[test]
fn runtime_and_uploader_plans() {
    assert_eq!(build_runtime_plan(true, Some(3), None, 2, Some(8)), RuntimePlan::CurrentThread);
    assert_eq!(
        build_runtime_plan(false, None, None, 2, Some(8)),
        RuntimePlan::MultiThread {
            stack_bytes: 2 * 1024 * 1024,
            worker_threads: None,
            max_blocking_threads: None,
            reported_workers: 8,
            reported_blocking: 512,
        }
    );
    match build_runtime_plan(false, Some(3), Some(7), 1, None) {
        RuntimePlan::MultiThread { reported_workers, reported_blocking, .. } => {
            assert_eq!((reported_workers, reported_blocking), (3, 7))
        }
        _ => panic!("expected a multi-thread plan"),
    }
    assert_eq!(
        build_uploader_plan(Some("s3".into()), None, Some("http://minio".into()), Some("/x".into())),
        UploaderPlan::S3 { region: "us-east-1".into(), endpoint: Some("http://minio".into()) }
    );
    assert_eq!(
        build_uploader_plan(Some("S3".into()), Some("eu".into()), None, None),
        UploaderPlan::Fs { base_path: ".".into() }
    );
    assert_eq!(output_dir(Some("/out".into())), "/out");
}

#[test]
fn generated_matrix_shape_and_range() {
    let m = generate_matrix();
    assert_eq!(m.len(), SIZE);
    assert!(m.iter().all(|r| r.len() == SIZE && r.iter().all(|&x| x < 100)));
    assert!(m.iter().flatten().any(|&x| x != m[0][0]));
    let total: u64 = m.iter().flatten().map(|&x| x as u64).sum();
    assert_eq!(parallel_sum(&m), total);
}
