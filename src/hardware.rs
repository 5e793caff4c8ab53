use vstd::prelude::*;
use crate::text::opt_view;

verus! {

/// What was detected of the host: sizes in whole gigabytes.
#[derive(Clone, Debug)]
pub struct HardwareInfo {
    pub cpu: String,
    pub ram: u64,
    pub gpu: Option<String>,
    pub vram: u64,
    pub os: String,
    pub cores: usize,
    pub threads: usize,
}

/// The model suggested for a host with `vram` and `ram` gigabytes.
pub open spec fn optimal_model(vram: u64, ram: u64) -> Seq<char> {
    if vram >= 16 {
        "deepseek-coder-33b-instruct.Q4_K_M.gguf"@
    } else if vram >= 8 {
        "codellama-13b-instruct.Q4_K_M.gguf"@
    } else if ram >= 16 {
        "codellama-7b-instruct.Q4_K_M.gguf"@
    } else {
        "tinyllama-1.1b-chat-v1.0.Q4_K_M.gguf"@
    }
}

/// Suggests the largest model the host can hold: by video memory first,
/// then by main memory.
pub fn get_optimal_model_for_hardware(hardware: &HardwareInfo) -> (r: String)
    ensures
        r@ == optimal_model(hardware.vram, hardware.ram),
{
    if hardware.vram >= 16 {
        String::from_str("deepseek-coder-33b-instruct.Q4_K_M.gguf")
    } else if hardware.vram >= 8 {
        String::from_str("codellama-13b-instruct.Q4_K_M.gguf")
    } else if hardware.ram >= 16 {
        String::from_str("codellama-7b-instruct.Q4_K_M.gguf")
    } else {
        String::from_str("tinyllama-1.1b-chat-v1.0.Q4_K_M.gguf")
    }
}

/// The graphics adapter assumed for an operating system, with its video
/// memory in gigabytes: a fixed discrete card on Windows, none elsewhere.
pub fn detect_gpu(os: &str) -> (r: (Option<String>, u64))
    ensures
        os@ == "windows"@ ==> opt_view(r.0) == Some("NVIDIA RTX 4070"@) && r.1 == 16,
        os@ != "windows"@ ==> r.0 is None && r.1 == 0,
{
    if String::from_str(os) == String::from_str("windows") {
        (Some(String::from_str("NVIDIA RTX 4070")), 16)
    } else {
        (None, 0)
    }
}

/// Bytes in a gigabyte, as memory sizes are reported.
pub const BYTES_PER_GB: u64 = 1073741824;

impl HardwareInfo {
    /// Builds the host description from what a system probe reported: the
    /// first processor's brand (`None` if none was listed), total memory in
    /// bytes, the number of logical processors and the OS name.
    pub fn from_probe(cpu_brand: Option<String>, total_memory_bytes: u64, cpu_count: usize, os: String) -> (r: Self)
        ensures
            r.cpu@ == (match cpu_brand { Some(b) => b@, None => "Unknown CPU"@ }),
            r.ram == total_memory_bytes / BYTES_PER_GB,
            os@ == "windows"@ ==> opt_view(r.gpu) == Some("NVIDIA RTX 4070"@) && r.vram == 16,
            os@ != "windows"@ ==> r.gpu is None && r.vram == 0,
            r.os == os,
            r.cores == cpu_count,
            r.threads == cpu_count,
    {
        let cpu = match cpu_brand {
            Some(b) => b,
            None => String::from_str("Unknown CPU"),
        };
        let (gpu, vram) = detect_gpu(os.as_str());
        HardwareInfo {
            cpu,
            ram: total_memory_bytes / BYTES_PER_GB,
            gpu,
            vram,
            os,
            cores: cpu_count,
            threads: cpu_count,
        }
    }
}

} // verus!
