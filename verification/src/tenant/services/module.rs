//! The parts the services module is assembled from, and the builder that
//! checks that none is missing. The parts are type parameters: the
//! configuration and the three repositories.

use vstd::prelude::*;

verus! {

/// The assembled services module.
pub struct ServicesModule<Config, ServicesRepo, CurrenciesRepo, TaxesRepo> {
    pub config: Config,
    pub services_repo: ServicesRepo,
    pub currencies_repo: CurrenciesRepo,
    pub taxes_repo: TaxesRepo,
}

/// Collects the parts of the services module.
pub struct ServicesModuleBuilder<Config, ServicesRepo, CurrenciesRepo, TaxesRepo> {
    pub config: Option<Config>,
    pub services_repo: Option<ServicesRepo>,
    pub currencies_repo: Option<CurrenciesRepo>,
    pub taxes_repo: Option<TaxesRepo>,
}

impl<Config, ServicesRepo, CurrenciesRepo, TaxesRepo> ServicesModuleBuilder<
    Config,
    ServicesRepo,
    CurrenciesRepo,
    TaxesRepo,
> {
    /// A builder with no part given.
    pub fn new() -> (r: Self)
        ensures
            r.config is None,
            r.services_repo is None,
            r.currencies_repo is None,
            r.taxes_repo is None,
    {
        ServicesModuleBuilder {
            config: None,
            services_repo: None,
            currencies_repo: None,
            taxes_repo: None,
        }
    }

    /// Gives the configuration.
    pub fn config(self, config: Config) -> (r: Self)
        ensures
            r.config == Some(config),
            r.services_repo == self.services_repo,
            r.currencies_repo == self.currencies_repo,
            r.taxes_repo == self.taxes_repo,
    {
        ServicesModuleBuilder { config: Some(config), ..self }
    }

    /// Gives the services repository.
    pub fn services_repo(self, services_repo: ServicesRepo) -> (r: Self)
        ensures
            r.config == self.config,
            r.services_repo == Some(services_repo),
            r.currencies_repo == self.currencies_repo,
            r.taxes_repo == self.taxes_repo,
    {
        ServicesModuleBuilder { services_repo: Some(services_repo), ..self }
    }

    /// Gives the currencies repository.
    pub fn currencies_repo(self, currencies_repo: CurrenciesRepo) -> (r: Self)
        ensures
            r.config == self.config,
            r.services_repo == self.services_repo,
            r.currencies_repo == Some(currencies_repo),
            r.taxes_repo == self.taxes_repo,
    {
        ServicesModuleBuilder { currencies_repo: Some(currencies_repo), ..self }
    }

    /// Gives the taxes repository.
    pub fn taxes_repo(self, taxes: TaxesRepo) -> (r: Self)
        ensures
            r.config == self.config,
            r.services_repo == self.services_repo,
            r.currencies_repo == self.currencies_repo,
            r.taxes_repo == Some(taxes),
    {
        ServicesModuleBuilder { taxes_repo: Some(taxes), ..self }
    }

    /// The message `build` fails with: the first missing part, in the
    /// order configuration, services, currencies, taxes.
    pub open spec fn missing_part(self) -> Option<Seq<char>> {
        if self.config is None {
            Some("config is required"@)
        } else if self.services_repo is None {
            Some("services_repo is required"@)
        } else if self.currencies_repo is None {
            Some("currencies_repo is required"@)
        } else if self.taxes_repo is None {
            Some("taxes_repo is required"@)
        } else {
            None
        }
    }

    /// Assembles the module from the given parts; fails naming the first
    /// missing part.
    pub fn build(self) -> (r: Result<
        ServicesModule<Config, ServicesRepo, CurrenciesRepo, TaxesRepo>,
        String,
    >)
        ensures
            match r {
                Ok(m) => {
                    &&& self.missing_part() is None
                    &&& self.config == Some(m.config)
                    &&& self.services_repo == Some(m.services_repo)
                    &&& self.currencies_repo == Some(m.currencies_repo)
                    &&& self.taxes_repo == Some(m.taxes_repo)
                },
                Err(message) => self.missing_part() == Some(message@),
            },
    {
        let config = match self.config {
            Some(c) => c,
            None => return Err("config is required".to_owned()),
        };
        let services_repo = match self.services_repo {
            Some(s) => s,
            None => return Err("services_repo is required".to_owned()),
        };
        let currencies_repo = match self.currencies_repo {
            Some(c) => c,
            None => return Err("currencies_repo is required".to_owned()),
        };
        let taxes_repo = match self.taxes_repo {
            Some(t) => t,
            None => return Err("taxes_repo is required".to_owned()),
        };
        Ok(ServicesModule { config, services_repo, currencies_repo, taxes_repo })
    }
}

impl<Config, ServicesRepo, CurrenciesRepo, TaxesRepo> Default for ServicesModuleBuilder<
    Config,
    ServicesRepo,
    CurrenciesRepo,
    TaxesRepo,
> {
    fn default() -> (r: Self)
        ensures
            r.config is None,
            r.services_repo is None,
            r.currencies_repo is None,
            r.taxes_repo is None,
    {
        Self::new()
    }
}

} // verus!
