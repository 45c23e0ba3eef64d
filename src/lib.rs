//! Symbolic pitches, PCM sample formats and the RIFF/WAVE container layout.

mod format;
mod le_bytes;
mod mp3;
mod notation;
mod pitch;
mod wav;

pub use format::{format_check, FormatError, PcmFormat, MAX_BITS_PER_SAMPLE};
pub use le_bytes::{le16, le32, lemma_le16_round_trip, lemma_le32_round_trip, read_le16, read_le32};
pub use mp3::mp3_frame_header;
pub use notation::{
    all_digits, alter_of, decimal_value, is_digit, litera_of, litera_of_char, octave_of,
    NotationError,
};
pub use pitch::{
    alter_offset, lemma_accidental_shifts_one, lemma_octave_up_adds_twelve,
    lemma_reference_pitch_at_origin, litera_offset, semitones_from_origin, NoteAlter, NoteLitera,
    NoteMusicalNotation, ORIGIN_NOTE_OCTAVE,
};
pub use wav::{
    block_align, byte_rate, data_chunk_size, data_tag, encode_wav, fmt_tag,
    lemma_sample_bytes_round_trip, lemma_wav_header_fields, lemma_wav_round_trip, riff_tag, sample_bytes, wav_file,
    wav_fits, wav_header, wave_tag, WavError, PCM_AUDIO_FORMAT, SUBCHUNK1_SIZE, WAV_BITS_PER_SAMPLE,
    WAV_BYTES_PER_SAMPLE, WAV_HEADER_LEN,
};
