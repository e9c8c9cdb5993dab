use llm_runner_router::memory::{MemoryManager, MemoryPool, MemoryTracker};
use llm_runner_router::native_error::NativeError;
use llm_runner_router::quantization::QuantizationType;
use llm_runner_router::tokenize::{
    count_chars_simd, pad_tokens, truncate_tokens, TokenizationResult, TokenizerConfig,
};

#[test]
fn test_memory_tracking() {
    let mut tracker = MemoryTracker::new();
    let initial = tracker.allocated_bytes;

    tracker.track_allocation(1024);
    assert_eq!(tracker.allocated_bytes, initial + 1024);

    tracker.track_deallocation(512);
    assert_eq!(tracker.allocated_bytes, initial + 512);
}

#[test]
fn test_memory_pool() {
    let mut pool = MemoryPool::new(1024, 2);

    let block1 = pool.allocate().unwrap();
    let block2 = pool.allocate().unwrap();

    assert_eq!(block1, 0);
    assert_eq!(block2, 1);

    pool.deallocate(block1);
    let block3 = pool.allocate().unwrap();
    assert_eq!(block3, 0); // Reused block1
}

#[test]
fn test_memory_pool_growth_and_reads() {
    let mut pool = MemoryPool::new(4, 1);
    assert_eq!(pool.allocate().unwrap(), 0);
    // No free block left: a fresh zeroed block is appended.
    assert_eq!(pool.allocate().unwrap(), 1);
    assert_eq!(pool.get_block(1).unwrap(), &[0u8, 0, 0, 0]);
    assert!(pool.get_block(2).is_none());

    let old = pool.replace_block(1, vec![1, 2, 3, 4]).unwrap();
    assert_eq!(old, vec![0u8, 0, 0, 0]);
    assert_eq!(pool.get_block(1).unwrap(), &[1u8, 2, 3, 4]);

    // Swapping past the pool hands the data back as the error case.
    assert!(pool.replace_block(9, vec![0, 0, 0, 0]).is_err());
}

#[test]
fn test_memory_peak_and_saturation() {
    let mut tracker = MemoryTracker::new();
    tracker.track_allocation(100);
    tracker.track_deallocation(40);
    assert_eq!(tracker.allocated_bytes, 60);
    assert_eq!(tracker.peak_bytes, 100);
    // A deallocation larger than the total stops at zero.
    tracker.track_deallocation(1000);
    assert_eq!(tracker.allocated_bytes, 0);
    assert_eq!(tracker.peak_bytes, 100);
}

#[test]
fn test_memory_breakdown() {
    let mut tracker = MemoryTracker::new();
    tracker.track_allocation(2048);
    let breakdown = MemoryManager::get_memory_breakdown(&tracker);
    assert_eq!(breakdown.allocated_bytes, 2048);
    assert_eq!(breakdown.mapped_bytes, 0);
    assert_eq!(breakdown.retained_bytes, 0);
}

#[test]
fn test_simd_char_counting() {
    let text = b"Hello, world! Hello, Rust!";
    let count = count_chars_simd(text, b'l');
    assert_eq!(count, 5);
}

#[test]
fn test_count_chars_empty_and_absent() {
    assert_eq!(count_chars_simd(b"", b'x'), 0);
    assert_eq!(count_chars_simd(b"aaaa", b'b'), 0);
    assert_eq!(count_chars_simd(b"bbbb", b'b'), 4);
}

fn sample_result() -> TokenizationResult {
    TokenizationResult {
        ids: vec![10, 20, 30],
        tokens: vec!["a".to_string(), "b".to_string(), "c".to_string()],
        attention_mask: vec![1, 1, 1],
        special_tokens_mask: vec![0, 0, 0],
        offsets: vec![(0, 1), (1, 2), (2, 3)],
    }
}

#[test]
fn test_truncate_tokens() {
    let truncated = truncate_tokens(sample_result(), 2);
    assert_eq!(truncated.ids, vec![10, 20]);
    assert_eq!(truncated.tokens, vec!["a".to_string(), "b".to_string()]);
    assert_eq!(truncated.attention_mask, vec![1, 1]);
    assert_eq!(truncated.special_tokens_mask, vec![0, 0]);
    assert_eq!(truncated.offsets, vec![(0, 1), (1, 2)]);

    // Already short enough: unchanged.
    let same = truncate_tokens(sample_result(), 5);
    assert_eq!(same.ids, vec![10, 20, 30]);
}

#[test]
fn test_pad_tokens() {
    let padded = pad_tokens(sample_result(), 5, 99);
    assert_eq!(padded.ids, vec![10, 20, 30, 99, 99]);
    assert_eq!(padded.tokens[3], "<pad>");
    assert_eq!(padded.tokens[4], "<pad>");
    assert_eq!(padded.attention_mask, vec![1, 1, 1, 0, 0]);
    assert_eq!(padded.special_tokens_mask, vec![0, 0, 0, 1, 1]);
    assert_eq!(padded.offsets[4], (0, 0));

    // Already long enough: unchanged.
    let same = pad_tokens(sample_result(), 2, 99);
    assert_eq!(same.ids, vec![10, 20, 30]);
}

#[test]
fn test_tokenizer_config_defaults() {
    let config = TokenizerConfig::default();
    assert_eq!(config.model, "gpt2");
    assert_eq!(config.max_length, Some(2048));
    assert_eq!(config.pad_token, Some("<pad>".to_string()));
    assert_eq!(config.add_special_tokens, Some(true));
    assert_eq!(config.enable_cache, Some(true));
}

#[test]
fn test_native_error_constructors() {
    assert!(matches!(
        NativeError::tokenizer("t"),
        NativeError::Tokenizer { .. }
    ));
    assert!(matches!(
        NativeError::quantization("q"),
        NativeError::Quantization { .. }
    ));
    assert!(matches!(
        NativeError::tensor_op("t"),
        NativeError::TensorOp { .. }
    ));
    assert!(matches!(NativeError::memory("m"), NativeError::Memory { .. }));
    assert!(matches!(NativeError::io("i"), NativeError::Io { .. }));
    assert!(matches!(
        NativeError::invalid_input("v"),
        NativeError::InvalidInput { .. }
    ));
    assert!(matches!(
        NativeError::not_implemented("f"),
        NativeError::NotImplemented { .. }
    ));
    assert!(matches!(
        NativeError::internal("x"),
        NativeError::Internal { .. }
    ));
}

#[test]
fn test_native_error_messages() {
    assert_eq!(
        NativeError::invalid_input("bad shape").to_message(),
        "Invalid input: bad shape"
    );
    assert_eq!(
        NativeError::not_implemented("gpu").to_message(),
        "Not implemented: gpu"
    );
    assert_eq!(
        NativeError::tensor_op("rank mismatch").to_message(),
        "Tensor operation error: rank mismatch"
    );
    assert_eq!(NativeError::io("short read").to_message(), "IO error: short read");
}

#[test]
fn test_quantization_types_distinct() {
    assert_ne!(QuantizationType::FP16, QuantizationType::INT8);
    assert_eq!(QuantizationType::INT4, QuantizationType::INT4);
    assert_ne!(QuantizationType::Unquantized, QuantizationType::Dynamic);
}
