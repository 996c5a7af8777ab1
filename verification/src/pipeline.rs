//! The pipeline from transcript to censoring job: the words are
//! classified, the blocked ones are merged into segments, the segments are
//! padded, and the strategy that the configuration names plans the job.

use crate::audio::AudioSegment;
use crate::censoring::{add_padding_to_segments, can_pad, paddable, padded_all};
use crate::error::{BabymodeError, ErrorModel, Result};
use crate::plugins::{lookup, CensoringConfig, CensoringStrategy, StrategyRegistry};
use crate::text::views;
use crate::tool::{AudioJob, JobModel};
use crate::whisper::{
    detect_swear_words, detection_views, malformed_transcript, merge_detected,
    transcript_blocked, transcript_timed, DetectionModel, TranscriptSegment, WordDetection,
};
use vstd::prelude::*;
use vstd::string::*;

verus! {

/// The configuration of the pipeline.
#[derive(Debug, Clone)]
pub struct PipelineConfig {
    /// The words to detect: normalized, and at least one.
    pub block_list: Vec<String>,
    /// Detections no farther apart than this, in milliseconds, are merged.
    pub merge_gap: u64,
    /// The margin around each segment, in milliseconds.
    pub padding: u64,
    /// The name of the strategy.
    pub strategy_name: String,
    /// The settings of the strategy.
    pub strategy_config: CensoringConfig,
}

/// The error for an empty block-list.
pub open spec fn empty_block_list() -> ErrorModel {
    ErrorModel::Config { field: "swear_words"@, message: "Swear words list cannot be empty"@ }
}

/// The error for a segment that ends too late for the padding to fit in
/// the range of the timeline.
pub open spec fn timestamp_out_of_range() -> ErrorModel {
    ErrorModel::MalformedTranscript { message: "a timestamp is out of range"@ }
}

/// The time windows of detection models, in the same order.
pub open spec fn model_spans(detections: Seq<DetectionModel>) -> Seq<AudioSegment> {
    detections.map_values(
        |d: DetectionModel| AudioSegment::spanning(d.start_time as int, d.end_time as int),
    )
}

/// The segments that the blocked words of a transcript give: merged within
/// `gap`, then widened by `padding`.
pub open spec fn planned_segments(
    segments: Seq<TranscriptSegment>,
    block_list: Seq<Seq<char>>,
    gap: u64,
    padding: u64,
) -> Seq<AudioSegment> {
    padded_all(merged_segments(segments, block_list, gap), padding as int)
}

/// The merged segments of the blocked words of a transcript, before
/// padding.
pub open spec fn merged_segments(
    segments: Seq<TranscriptSegment>,
    block_list: Seq<Seq<char>>,
    gap: u64,
) -> Seq<AudioSegment> {
    crate::whisper::merged_in_order(
        crate::whisper::sorted_by_start(
            model_spans(transcript_blocked(segments, block_list, segments.len())),
        ),
        gap as int,
    )
}

/// What the pipeline gives. The checks come in this order: the block-list
/// holds a word, the registry holds the strategy, the strategy accepts its
/// settings, the timings of the transcript are valid and leave room for
/// the padding. Then the strategy plans the job for the padded segments.
pub open spec fn planned<S: CensoringStrategy>(
    entries: Seq<S>,
    config: PipelineConfig,
    transcript: Seq<TranscriptSegment>,
    input: Seq<char>,
    output: Seq<char>,
) -> std::result::Result<JobModel, ErrorModel> {
    if config.block_list@.len() == 0 {
        Err(empty_block_list())
    } else {
        match lookup(entries, config.strategy_name@) {
            None => Err(ErrorModel::UnknownStrategy { name: config.strategy_name@ }),
            Some(strategy) => match strategy.rejection(&config.strategy_config) {
                Some(error) => Err(error),
                None => if !transcript_timed(transcript) {
                    Err(malformed_transcript())
                } else if !paddable(
                    merged_segments(transcript, views(config.block_list@), config.merge_gap),
                    config.padding as int,
                ) {
                    Err(timestamp_out_of_range())
                } else {
                    Ok(
                        strategy.job_spec(
                            input,
                            output,
                            planned_segments(
                                transcript,
                                views(config.block_list@),
                                config.merge_gap,
                                config.padding,
                            ),
                            &config.strategy_config,
                        ),
                    )
                },
            },
        }
    }
}

/// The time windows of detections are those of their models.
pub proof fn lemma_spans_of_views(detections: Seq<WordDetection>)
    ensures
        crate::whisper::spans(detections) == model_spans(detection_views(detections)),
{
}

/// Plans the censoring of the audio at `input_path` into `output_path`,
/// from the transcript of the audio.
pub fn plan<S: CensoringStrategy>(
    registry: &StrategyRegistry<S>,
    config: &PipelineConfig,
    transcript: &[TranscriptSegment],
    input_path: &str,
    output_path: &str,
) -> (r: Result<AudioJob>)
    requires
        registry.well_formed(),
    ensures
        match planned(registry.entries(), *config, transcript@, input_path@, output_path@) {
            Ok(job) => r matches Ok(j) && j@ == job,
            Err(error) => r matches Err(e) && e@ == error,
        },
{
    if config.block_list.len() == 0 {
        return Err(
            BabymodeError::Config {
                field: "swear_words".to_string(),
                message: "Swear words list cannot be empty".to_string(),
            },
        );
    }
    let strategy = match registry.get_strategy(config.strategy_name.as_str()) {
        Some(strategy) => strategy,
        None => {
            return Err(BabymodeError::UnknownStrategy { name: config.strategy_name.clone() });
        },
    };
    match strategy.validate_config(&config.strategy_config) {
        Err(e) => {
            return Err(e);
        },
        Ok(_) => {},
    }
    let detections = match detect_swear_words(transcript, config.block_list.as_slice()) {
        Ok(detections) => detections,
        Err(e) => {
            return Err(e);
        },
    };
    proof {
        lemma_spans_of_views(detections@);
    }
    let merged = merge_detected(detections.as_slice(), config.merge_gap);
    if !can_pad(merged.as_slice(), config.padding) {
        return Err(
            BabymodeError::MalformedTranscript { message: "a timestamp is out of range".to_string() },
        );
    }
    let padded = add_padding_to_segments(merged, config.padding);
    Ok(strategy.apply_censoring(input_path, output_path, padded.as_slice(), &config.strategy_config))
}

} // verus!
