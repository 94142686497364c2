//! The settings of the program.

use vstd::prelude::*;

verus! {

/// The settings of the program.
#[derive(Debug)]
pub struct DownloaderConfig {
    pub backend_url: String,
    pub download_dir: String,
    pub log_dir: String,
    pub enable_downloader: bool,
    pub max_parallel_downloads: usize,
    pub main_loop_sleep_time: u64,
    pub sleep_time_between_statusing: u64,
}

impl Clone for DownloaderConfig {
    fn clone(&self) -> (r: Self)
        ensures
            r == *self,
    {
        DownloaderConfig {
            backend_url: self.backend_url.clone(),
            download_dir: self.download_dir.clone(),
            log_dir: self.log_dir.clone(),
            enable_downloader: self.enable_downloader,
            max_parallel_downloads: self.max_parallel_downloads,
            main_loop_sleep_time: self.main_loop_sleep_time,
            sleep_time_between_statusing: self.sleep_time_between_statusing,
        }
    }
}

impl Default for DownloaderConfig {
    fn default() -> (r: Self)
        ensures
            r.backend_url@ == "http://127.0.0.1:8000"@,
            r.download_dir@ == "/tmp"@,
            r.log_dir@ == "/tmp"@,
            r.enable_downloader,
            r.max_parallel_downloads == 2,
            r.main_loop_sleep_time == 5,
            r.sleep_time_between_statusing == 5,
    {
        DownloaderConfig {
            backend_url: "http://127.0.0.1:8000".to_owned(),
            download_dir: "/tmp".to_owned(),
            log_dir: "/tmp".to_owned(),
            enable_downloader: true,
            max_parallel_downloads: 2,
            main_loop_sleep_time: 5,
            sleep_time_between_statusing: 5,
        }
    }
}

} // verus!
